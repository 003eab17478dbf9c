//! Client-side protocol engine for a remote time-series ingestion service:
//! a binary wire-format encoder, an authentication session, and an upload
//! state machine with a single auto-provisioning retry.
pub mod device;
pub mod protocol;
pub mod xdr;
