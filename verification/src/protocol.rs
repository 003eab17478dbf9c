//! Protocol data model: sample points and rates, the error taxonomy, the HTTP
//! request/response shapes the engine exchanges with its transport, the exact
//! layout of every request body, and the parse of the authentication response.
use vstd::prelude::*;
use crate::xdr::{
    pad4, zeros, be_u32, be_u64, be_i32, i32_of_bits, u32_from_be, u64_from_be, fixed_field,
    encode_u32, encode_u64, encode_i32, encode_fixed_string, decode_u32, lemma_u32_round_trip,
    lemma_u64_round_trip, lemma_i32_round_trip, lemma_empty_fixed_field,
};
use vstd::utf8::{valid_utf8, decode_utf8};

verus! {

/// One sample: a timestamp in nanoseconds since the epoch and the IEEE-754
/// bit pattern of the 32-bit sample value, which is exactly what goes on the
/// wire for it.
#[derive(Clone, Copy, PartialEq, Eq, Structural, Debug)]
pub struct Point {
    pub timestamp: u64,
    pub value_bits: u32,
}

/// The two ways a sample rate is stated; `Hertz` encodes as type code 1,
/// `Seconds` as type code 0.
#[derive(Clone, Copy, PartialEq, Eq, Structural, Debug)]
pub enum SampleRateType {
    Hertz,
    Seconds,
}

/// A sample rate: a discriminant and its unsigned 32-bit value.
#[derive(Clone, Copy, PartialEq, Eq, Structural, Debug)]
pub struct SampleRate {
    pub sr_type: SampleRateType,
    pub value: u32,
}

impl SampleRate {
    /// The wire type code: 1 for Hertz, 0 for Seconds.
    pub open spec fn spec_code(&self) -> i32 {
        match self.sr_type {
            SampleRateType::Hertz => 1,
            SampleRateType::Seconds => 0,
        }
    }

    pub fn hertz(value: u32) -> (r: SampleRate)
        ensures
            r.sr_type == SampleRateType::Hertz,
            r.value == value,
            r.spec_code() == 1,
    {
        SampleRate { sr_type: SampleRateType::Hertz, value }
    }

    pub fn seconds(value: u32) -> (r: SampleRate)
        ensures
            r.sr_type == SampleRateType::Seconds,
            r.value == value,
            r.spec_code() == 0,
    {
        SampleRate { sr_type: SampleRateType::Seconds, value }
    }

    /// The wire type code of this rate.
    pub fn code(&self) -> (r: i32)
        ensures
            r == self.spec_code(),
    {
        match self.sr_type {
            SampleRateType::Hertz => 1,
            SampleRateType::Seconds => 0,
        }
    }
}

/// The rate whose wire type code is `code`: 1 reads back as Hertz, anything
/// else as Seconds (the service only ever emits 0 or 1).
pub open spec fn rate_of_code(code: i32, value: u32) -> SampleRate {
    if code == 1 {
        SampleRate { sr_type: SampleRateType::Hertz, value }
    } else {
        SampleRate { sr_type: SampleRateType::Seconds, value }
    }
}

/// Everything that can go wrong between the engine and the service.
#[derive(Debug)]
pub enum Error {
    /// The auth token was rejected mid-session.
    Unauthorized,
    /// The authentication handshake itself was rejected.
    InvalidCredentials,
    /// The upload target is missing; drives the single provisioning retry.
    ChannelNotFound,
    /// The service rejected a provisioning request.
    InvalidParameters,
    /// Any HTTP status this protocol does not classify, carried verbatim.
    UnknownStatus(u16),
    /// The transport failed before a status came back; the cause is opaque.
    TransportError(String),
}

/// The HTTP verbs this protocol uses.
#[derive(Clone, Copy, PartialEq, Eq, Structural, Debug)]
pub enum Method {
    Get,
    Put,
    Post,
}

/// One fully-determined HTTP request for the transport to perform.
pub struct HttpRequest {
    pub method: Method,
    pub url: String,
    pub content_type: Option<String>,
    pub accept: Option<String>,
    pub body: Vec<u8>,
}

/// What the transport got back: a status code and the raw body.
pub struct HttpResponse {
    pub status: u16,
    pub body: Vec<u8>,
}

/// A request that carries the binary content type and no accept header, as
/// every upload and provisioning request does.
pub open spec fn xdr_content(req: HttpRequest) -> bool {
    &&& req.content_type matches Some(c) && c@ == "application/xdr"@
    &&& req.accept is None
}

/// The wire bytes of one point: timestamp then value bits, both big-endian.
pub open spec fn point_bytes(p: Point) -> Seq<u8> {
    be_u64(p.timestamp) + be_u32(p.value_bits)
}

/// The wire bytes of a run of points, in input order.
pub open spec fn points_bytes(ps: Seq<Point>) -> Seq<u8>
    decreases ps.len(),
{
    if ps.len() == 0 {
        Seq::empty()
    } else {
        point_bytes(ps[0]) + points_bytes(ps.drop_first())
    }
}

/// The full upload body: version, rate type code, rate value, point count,
/// then every point in order.
pub open spec fn spec_upload_body(version: i32, rate: SampleRate, ps: Seq<Point>) -> Seq<u8>
    recommends
        ps.len() <= 0x7fff_ffff,
{
    be_i32(version) + be_i32(rate.spec_code()) + be_u32(rate.value) + be_i32(ps.len() as i32)
        + points_bytes(ps)
}

/// The create-sensor body: version, then empty name (cap 50), label (cap 50)
/// and description (cap 1000) fields, each zero-padded to its capacity's
/// four-byte boundary.
pub open spec fn spec_sensor_body(version: i32) -> Seq<u8> {
    be_i32(version) + zeros(52) + zeros(52) + zeros(1000)
}

/// The create-channel body: version, then empty name (cap 50) and description
/// (cap 1000) fields.
pub open spec fn spec_channel_body(version: i32) -> Seq<u8> {
    be_i32(version) + zeros(52) + zeros(1000)
}

pub proof fn lemma_points_bytes_push(ps: Seq<Point>, p: Point)
    ensures
        points_bytes(ps.push(p)) == points_bytes(ps) + point_bytes(p),
    decreases ps.len(),
{
    if ps.len() == 0 {
        assert(ps.push(p)[0] == p);
        assert(ps.push(p).drop_first() =~= Seq::<Point>::empty());
        assert(points_bytes(ps.push(p)) == point_bytes(p) + points_bytes(
            ps.push(p).drop_first(),
        ));
        assert(points_bytes(ps.push(p).drop_first()) == Seq::<u8>::empty());
        assert(points_bytes(ps.push(p)) =~= points_bytes(ps) + point_bytes(p));
    } else {
        assert(ps.push(p)[0] == ps[0]);
        assert(ps.push(p).drop_first() =~= ps.drop_first().push(p));
        lemma_points_bytes_push(ps.drop_first(), p);
        assert(points_bytes(ps.push(p)) == point_bytes(ps[0]) + points_bytes(
            ps.drop_first().push(p),
        ));
        assert(points_bytes(ps.push(p)) =~= points_bytes(ps) + point_bytes(p));
    }
}

pub proof fn lemma_points_bytes_len(ps: Seq<Point>)
    ensures
        points_bytes(ps).len() == 12 * ps.len(),
    decreases ps.len(),
{
    if ps.len() > 0 {
        lemma_points_bytes_len(ps.drop_first());
    }
}

/// Uploading `n` points produces a body of exactly `4 + 4 + 4 + 4 + n * (8 + 4)`
/// bytes: version, rate type, rate value, count, then the points.
pub proof fn lemma_upload_body_len(version: i32, rate: SampleRate, ps: Seq<Point>)
    ensures
        spec_upload_body(version, rate, ps).len() == 16 + 12 * ps.len(),
{
    lemma_points_bytes_len(ps);
}

/// The points read back from their wire bytes: `n` records of a big-endian
/// timestamp and big-endian value bits.
pub open spec fn decode_points(b: Seq<u8>, n: nat) -> Seq<Point>
    decreases n,
{
    if n == 0 {
        Seq::empty()
    } else {
        seq![
            Point {
                timestamp: u64_from_be(b.subrange(0, 8)),
                value_bits: u32_from_be(b.subrange(8, 12)),
            },
        ] + decode_points(b.skip(12), (n - 1) as nat)
    }
}

proof fn lemma_points_round_trip(ps: Seq<Point>)
    ensures
        decode_points(points_bytes(ps), ps.len()) == ps,
    decreases ps.len(),
{
    if ps.len() > 0 {
        let b = points_bytes(ps);
        let rest = points_bytes(ps.drop_first());
        lemma_points_bytes_len(ps.drop_first());
        assert(b.subrange(0, 8) =~= be_u64(ps[0].timestamp));
        assert(b.subrange(8, 12) =~= be_u32(ps[0].value_bits));
        lemma_u64_round_trip(ps[0].timestamp);
        lemma_u32_round_trip(ps[0].value_bits);
        assert(b.skip(12) =~= rest);
        lemma_points_round_trip(ps.drop_first());
        assert(decode_points(b, ps.len()) =~= ps);
    }
}

/// Round trip: every field of an upload body reads back, with the fixed-width
/// rules, to exactly the values that were encoded — version, rate (type and
/// value), count, and every point.
#[verifier::rlimit(60)]
pub proof fn lemma_upload_body_round_trip(version: i32, rate: SampleRate, ps: Seq<Point>)
    requires
        ps.len() <= 0x7fff_ffff,
    ensures
        ({
            let b = spec_upload_body(version, rate, ps);
            &&& i32_of_bits(u32_from_be(b.subrange(0, 4))) == version
            &&& rate_of_code(i32_of_bits(u32_from_be(b.subrange(4, 8))), u32_from_be(b.subrange(8, 12))) == rate
            &&& i32_of_bits(u32_from_be(b.subrange(12, 16))) == ps.len() as i32
            &&& decode_points(b.skip(16), ps.len()) == ps
        }),
{
    let b = spec_upload_body(version, rate, ps);
    assert(b.subrange(0, 4) =~= be_i32(version));
    assert(b.subrange(4, 8) =~= be_i32(rate.spec_code()));
    assert(b.subrange(8, 12) =~= be_u32(rate.value));
    assert(b.subrange(12, 16) =~= be_i32(ps.len() as i32));
    assert(b.skip(16) =~= points_bytes(ps));
    lemma_i32_round_trip(version);
    lemma_i32_round_trip(rate.spec_code());
    lemma_u32_round_trip(rate.value);
    lemma_i32_round_trip(ps.len() as i32);
    lemma_points_round_trip(ps);
}

/// Builds the upload body for the given rate and points.
pub fn build_upload_body(version: i32, rate: &SampleRate, data: &Vec<Point>) -> (body: Vec<u8>)
    requires
        data@.len() <= 0x7fff_ffff,
    ensures
        body@ == spec_upload_body(version, *rate, data@),
{
    let mut body: Vec<u8> = Vec::new();
    encode_i32(version, &mut body);
    encode_i32(rate.code(), &mut body);
    encode_u32(rate.value, &mut body);
    encode_i32(data.len() as i32, &mut body);
    let ghost prefix = body@;
    let mut i: usize = 0;
    while i < data.len()
        invariant
            i <= data@.len(),
            body@ == prefix + points_bytes(data@.take(i as int)),
        decreases data@.len() - i,
    {
        let p: Point = data[i];
        encode_u64(p.timestamp, &mut body);
        encode_u32(p.value_bits, &mut body);
        proof {
            lemma_points_bytes_push(data@.take(i as int), data@[i as int]);
            assert(data@.take(i as int).push(data@[i as int]) =~= data@.take(i as int + 1));
        }
        i = i + 1;
    }
    proof {
        assert(data@.take(data@.len() as int) =~= data@);
        assert(prefix + points_bytes(data@) =~= spec_upload_body(version, *rate, data@));
    }
    body
}

/// Builds the create-sensor body: placeholder shell with empty name, label
/// and description.
pub fn build_sensor_body(version: i32) -> (body: Vec<u8>)
    ensures
        body@ == spec_sensor_body(version),
{
    let mut body: Vec<u8> = Vec::new();
    encode_i32(version, &mut body);
    let empty: Vec<u8> = Vec::new();
    encode_fixed_string(empty.as_slice(), 50, &mut body);
    encode_fixed_string(empty.as_slice(), 50, &mut body);
    encode_fixed_string(empty.as_slice(), 1000, &mut body);
    proof {
        lemma_empty_fixed_field(50);
        lemma_empty_fixed_field(1000);
        assert(body@ =~= spec_sensor_body(version));
    }
    body
}

/// Builds the create-channel body: placeholder shell with empty name and
/// description.
pub fn build_channel_body(version: i32) -> (body: Vec<u8>)
    ensures
        body@ == spec_channel_body(version),
{
    let mut body: Vec<u8> = Vec::new();
    encode_i32(version, &mut body);
    let empty: Vec<u8> = Vec::new();
    encode_fixed_string(empty.as_slice(), 50, &mut body);
    encode_fixed_string(empty.as_slice(), 1000, &mut body);
    proof {
        lemma_empty_fixed_field(50);
        lemma_empty_fixed_field(1000);
        assert(body@ =~= spec_channel_body(version));
    }
    body
}

/// How an upload response's status is read: 201 is success, 404 means the
/// channel is missing, 401 means the token was rejected, and anything else is
/// surfaced verbatim.
pub open spec fn spec_classify_upload(status: u16) -> Result<(), Error> {
    if status == 201 {
        Ok(())
    } else if status == 404 {
        Err(Error::ChannelNotFound)
    } else if status == 401 {
        Err(Error::Unauthorized)
    } else {
        Err(Error::UnknownStatus(status))
    }
}

/// Classifies an upload response status.
pub fn classify_upload_status(status: u16) -> (r: Result<(), Error>)
    ensures
        r == spec_classify_upload(status),
{
    if status == 201 {
        Ok(())
    } else if status == 404 {
        Err(Error::ChannelNotFound)
    } else if status == 401 {
        Err(Error::Unauthorized)
    } else {
        Err(Error::UnknownStatus(status))
    }
}

/// How a provisioning response's status is read: only 201 is success;
/// anything else means the service rejected the request's parameters.
pub open spec fn spec_classify_provision(status: u16) -> Result<(), Error> {
    if status == 201 {
        Ok(())
    } else {
        Err(Error::InvalidParameters)
    }
}

/// Classifies a provisioning response status.
pub fn classify_provision_status(status: u16) -> (r: Result<(), Error>)
    ensures
        r == spec_classify_provision(status),
{
    if status == 201 {
        Ok(())
    } else {
        Err(Error::InvalidParameters)
    }
}

/// The final result of an upload attempt, given what the transport came back
/// with: a transport failure is surfaced with its cause, a status is
/// classified by the upload rules.
pub open spec fn spec_upload_result(event: Result<HttpResponse, String>) -> Result<(), Error> {
    match event {
        Ok(resp) => spec_classify_upload(resp.status),
        Err(cause) => Err(Error::TransportError(cause)),
    }
}

/// The final result of a provisioning attempt, given what the transport came
/// back with.
pub open spec fn spec_provision_result(event: Result<HttpResponse, String>) -> Result<(), Error> {
    match event {
        Ok(resp) => spec_classify_provision(resp.status),
        Err(cause) => Err(Error::TransportError(cause)),
    }
}

/// The two strings of the authentication response body, as raw bytes: a
/// big-endian length, that many token bytes padded to a four-byte boundary,
/// then a host field of that same declared length, equally padded. `None` if
/// the body is too short for the declared length.
pub open spec fn spec_auth_parse(bytes: Seq<u8>) -> Option<(Seq<u8>, Seq<u8>)> {
    if bytes.len() < 4 {
        None
    } else {
        let l = u32_from_be(bytes.subrange(0, 4)) as int;
        if 4 + pad4(l) + pad4(l) <= bytes.len() {
            Some((bytes.subrange(4, 4 + l), bytes.subrange(4 + pad4(l), 4 + pad4(l) + l)))
        } else {
            None
        }
    }
}

/// The token and host of the authentication response as character strings:
/// the raw fields, which must both be valid UTF-8.
pub open spec fn spec_auth_session(bytes: Seq<u8>) -> Option<(Seq<char>, Seq<char>)> {
    match spec_auth_parse(bytes) {
        None => None,
        Some((t, h)) => if valid_utf8(t) && valid_utf8(h) {
            Some((decode_utf8(t), decode_utf8(h)))
        } else {
            None
        },
    }
}

/// Relies on String::from_utf8: it returns Ok exactly on valid UTF-8 input,
/// and the returned string holds that input's decoded scalar values.
#[verifier::external_body]
fn string_from_utf8(v: Vec<u8>) -> (r: Option<String>)
    ensures
        match r {
            Some(s) => valid_utf8(v@) && s@ == decode_utf8(v@),
            None => !valid_utf8(v@),
        },
{
    match String::from_utf8(v) {
        Ok(s) => Some(s),
        Err(_) => None,
    }
}

/// Copies `len` bytes starting at `start`.
fn bytes_range(b: &Vec<u8>, start: usize, len: usize) -> (r: Vec<u8>)
    requires
        start + len <= b@.len(),
    ensures
        r@ == b@.subrange(start as int, start as int + len as int),
{
    let total: usize = b.len();
    let mut r: Vec<u8> = Vec::new();
    let mut i: usize = 0;
    while i < len
        invariant
            i <= len,
            start + len <= b@.len(),
            b@.len() == total,
            r@ == b@.subrange(start as int, start as int + i as int),
        decreases len - i,
    {
        let x: u8 = b[start + i];
        r.push(x);
        i = i + 1;
        assert(r@ =~= b@.subrange(start as int, start as int + i as int));
    }
    r
}

/// Parses the authentication response body into the token and the resolved
/// server host. `None` when the body is malformed, not valid UTF-8, or either
/// string is longer than the engine accepts for a URL component.
pub fn parse_auth_response(body: &Vec<u8>) -> (r: Option<(String, String)>)
    ensures
        match r {
            Some(p) => {
                &&& spec_auth_session(body@) matches Some(s)
                &&& p.0@ == s.0
                &&& p.1@ == s.1
                &&& s.0.len() <= 0x10_0000
                &&& s.1.len() <= 0x10_0000
            },
            None => match spec_auth_session(body@) {
                None => true,
                Some(s) => s.0.len() > 0x10_0000 || s.1.len() > 0x10_0000,
            },
        },
{
    if body.len() < 4 {
        return None;
    }
    let l32: u32 = decode_u32(body.as_slice(), 0);
    let l64: u64 = l32 as u64;
    let pl64: u64 = ((l64 + 3) / 4) * 4;
    assert(pl64 == pad4(l32 as int));
    assert(pl64 >= l64) by (nonlinear_arith)
        requires
            pl64 == ((l64 + 3) / 4) * 4,
    ;
    let need: u64 = 4 + pl64 + pl64;
    if need > body.len() as u64 {
        assert(spec_auth_parse(body@) is None);
        return None;
    }
    let l: usize = l32 as usize;
    let pl: usize = pl64 as usize;
    let token_bytes = bytes_range(body, 4, l);
    let host_bytes = bytes_range(body, 4 + pl, l);
    let ghost spec_fields = spec_auth_parse(body@);
    assert(spec_fields matches Some(f) && f.0 == token_bytes@ && f.1 == host_bytes@);
    let token = match string_from_utf8(token_bytes) {
        Some(s) => s,
        None => {
            return None;
        },
    };
    let host = match string_from_utf8(host_bytes) {
        Some(s) => s,
        None => {
            return None;
        },
    };
    if token.as_str().unicode_len() > 0x10_0000 {
        return None;
    }
    if host.as_str().unicode_len() > 0x10_0000 {
        return None;
    }
    Some((token, host))
}

} // verus!
