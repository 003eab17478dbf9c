//! The device: its authentication session and the upload state machine.
//!
//! Every HTTP exchange is a hand-off: the device produces a fully-determined
//! [`HttpRequest`], the caller performs it on whatever transport it owns, and
//! hands the outcome back to [`Device::upload_step`]. The machine
//! authenticates lazily, sends the upload, and on a missing-channel answer
//! provisions the sensor and retries exactly once.
use vstd::prelude::*;
use crate::protocol::{
    Point, SampleRate, Error, Method, HttpRequest, HttpResponse, xdr_content, spec_upload_body,
    spec_sensor_body, spec_channel_body, spec_auth_session, spec_upload_result,
    spec_provision_result, build_upload_body, build_sensor_body, build_channel_body,
    classify_upload_status, classify_provision_status, parse_auth_response,
};

verus! {

/// Relies on String::push_str: appends the slice's characters to the string.
/// The length bound keeps the byte length within what a string can hold on
/// any platform, so the call cannot fail.
#[verifier::external_body]
fn append_str(s: &mut String, t: &str)
    requires
        old(s)@.len() + t@.len() <= 0x1000_0000,
    ensures
        final(s)@ == old(s)@ + t@,
{
    s.push_str(t);
}

/// The binary content type every request of this protocol carries.
fn xdr_type() -> (r: String)
    ensures
        r@ == "application/xdr"@,
{
    "application/xdr".to_owned()
}

/// Copies a byte vector.
fn copy_bytes(v: &Vec<u8>) -> (r: Vec<u8>)
    ensures
        r@ == v@,
{
    let mut r: Vec<u8> = Vec::new();
    let mut i: usize = 0;
    while i < v.len()
        invariant
            i <= v@.len(),
            r@ == v@.take(i as int),
        decreases v@.len() - i,
    {
        let x: u8 = v[i];
        r.push(x);
        i = i + 1;
        assert(r@ =~= v@.take(i as int));
    }
    assert(v@.take(v@.len() as int) =~= v@);
    r
}

/// Copies a point vector.
fn copy_points(v: &Vec<Point>) -> (r: Vec<Point>)
    ensures
        r@ == v@,
{
    let mut r: Vec<Point> = Vec::new();
    let mut i: usize = 0;
    while i < v.len()
        invariant
            i <= v@.len(),
            r@ == v@.take(i as int),
        decreases v@.len() - i,
    {
        let p: Point = v[i];
        r.push(p);
        i = i + 1;
        assert(r@ =~= v@.take(i as int));
    }
    assert(v@.take(v@.len() as int) =~= v@);
    r
}

/// The authentication URL: the fixed cloud host, the device's base path, and
/// the auth key as a query parameter.
pub open spec fn spec_auth_url(base_path: Seq<char>, auth_key: Seq<char>) -> Seq<char> {
    "https://sensorcloud.microstrain.com"@ + base_path + "authenticate/?version=1&key="@
        + auth_key
}

/// The upload URL: resolved host, base path, sensor, channel, and the session
/// token as a query parameter.
pub open spec fn spec_upload_url(
    server: Seq<char>,
    base_path: Seq<char>,
    sensor: Seq<char>,
    channel: Seq<char>,
    token: Seq<char>,
) -> Seq<char> {
    "https://"@ + server + base_path + "sensors/"@ + sensor
        + "/channels/"@ + channel + "/streams/timeseries/data/?version=1&auth_token="@ + token
}

/// The create-sensor URL.
pub open spec fn spec_sensor_url(
    server: Seq<char>,
    base_path: Seq<char>,
    sensor: Seq<char>,
    token: Seq<char>,
) -> Seq<char> {
    "https://"@ + server + base_path + "sensors/"@ + sensor + "/?version=1&auth_token="@ + token
}

/// The create-channel URL.
pub open spec fn spec_channel_url(
    server: Seq<char>,
    base_path: Seq<char>,
    sensor: Seq<char>,
    channel: Seq<char>,
    token: Seq<char>,
) -> Seq<char> {
    "https://"@ + server + base_path + "sensors/"@ + sensor + "/channels/"@ + channel
        + "/?version=1&auth_token="@ + token
}

/// One remote device identity: a fixed API version, the device-scoped base
/// path, the long-lived credential, and the session obtained from the
/// authentication handshake.
pub struct Device {
    pub version: i32,
    pub base_path: String,
    pub auth_key: String,
    pub authenticated: bool,
    pub auth_token: String,
    pub server: String,
}

/// Where an upload stands between two transport exchanges.
pub enum UploadFlow {
    /// Waiting for the authentication response; the upload's inputs are held
    /// until the session exists.
    Authenticating { sensor: String, channel: String, rate: SampleRate, points: Vec<Point> },
    /// Waiting for the first upload attempt's response; the URL and body are
    /// held for a possible retry, the sensor name for provisioning.
    FirstAttempt { sensor: String, url: String, body: Vec<u8> },
    /// Waiting for the create-sensor response; the pre-built upload URL and
    /// body are held for the single retry.
    Provisioning { url: String, body: Vec<u8> },
    /// Waiting for the retry's response, which is final either way.
    SecondAttempt,
}

/// What a step hands back: either the next request to perform with the state
/// to resume from, or the upload's final result.
pub enum UploadOutcome {
    Pending(UploadFlow, HttpRequest),
    Complete(Result<(), Error>),
}

/// Machine-limit bounds on what a flow carries, kept across steps.
pub open spec fn flow_wf(f: UploadFlow) -> bool {
    match f {
        UploadFlow::Authenticating { sensor, channel, rate: _, points } => {
            &&& sensor@.len() <= 0x10_0000
            &&& channel@.len() <= 0x10_0000
            &&& points@.len() <= 0x7fff_ffff
        },
        UploadFlow::FirstAttempt { sensor, .. } => sensor@.len() <= 0x10_0000,
        UploadFlow::Provisioning { .. } => true,
        UploadFlow::SecondAttempt => true,
    }
}

/// How the authentication handshake's outcome reads: a transport failure is
/// surfaced verbatim; any status but 200 — and a 200 whose body does not
/// parse, is not UTF-8, or carries oversized strings — rejects the
/// credentials; otherwise the session takes the token and resolved host from
/// the body and nothing else of the device changes.
pub open spec fn auth_rel(
    pre: Device,
    event: Result<HttpResponse, String>,
    post: Device,
    r: Result<(), Error>,
) -> bool {
    match event {
        Err(cause) => post == pre && r == Result::<(), Error>::Err(Error::TransportError(cause)),
        Ok(resp) => {
            if resp.status != 200 {
                post == pre && r == Result::<(), Error>::Err(Error::InvalidCredentials)
            } else {
                match spec_auth_session(resp.body@) {
                    Some(s) => if s.0.len() <= 0x10_0000 && s.1.len() <= 0x10_0000 {
                        &&& r == Result::<(), Error>::Ok(())
                        &&& post.authenticated
                        &&& post.auth_token@ == s.0
                        &&& post.server@ == s.1
                        &&& post.version == pre.version
                        &&& post.base_path@ == pre.base_path@
                        &&& post.auth_key@ == pre.auth_key@
                    } else {
                        post == pre && r == Result::<(), Error>::Err(Error::InvalidCredentials)
                    },
                    None => post == pre && r == Result::<(), Error>::Err(
                        Error::InvalidCredentials,
                    ),
                }
            }
        },
    }
}

/// What starting an upload hands out: on a fresh session, the authentication
/// request and a flow that holds the upload's inputs; on an authenticated
/// session, the upload request itself, built from the session's host and
/// token.
pub open spec fn start_rel(
    dev: Device,
    sensor: Seq<char>,
    channel: Seq<char>,
    rate: SampleRate,
    points: Seq<Point>,
    flow: UploadFlow,
    req: HttpRequest,
) -> bool {
    if !dev.authenticated {
        &&& flow matches UploadFlow::Authenticating { sensor: s, channel: c, rate: r, points: p }
            && s@ == sensor && c@ == channel && r == rate && p@ == points
        &&& req.method == Method::Get
        &&& req.url@ == spec_auth_url(dev.base_path@, dev.auth_key@)
        &&& req.accept matches Some(a) && a@ == "application/xdr"@
        &&& req.content_type is None
        &&& req.body@ == Seq::<u8>::empty()
    } else {
        &&& flow matches UploadFlow::FirstAttempt { sensor: s, url: u, body: b }
            && s@ == sensor
            && u@ == spec_upload_url(dev.server@, dev.base_path@, sensor, channel, dev.auth_token@)
            && b@ == spec_upload_body(dev.version, rate, points)
        &&& req.method == Method::Post
        &&& req.url@ == spec_upload_url(dev.server@, dev.base_path@, sensor, channel, dev.auth_token@)
        &&& req.body@ == spec_upload_body(dev.version, rate, points)
        &&& xdr_content(req)
    }
}

/// The upload state machine's transition: from the device, the pending flow
/// and the transport's answer, exactly which state, request or final result
/// comes out.
pub open spec fn step_rel(
    pre: Device,
    flow: UploadFlow,
    event: Result<HttpResponse, String>,
    post: Device,
    out: UploadOutcome,
) -> bool {
    match flow {
        UploadFlow::Authenticating { sensor, channel, rate, points } => match event {
            Err(cause) => post == pre && out == UploadOutcome::Complete(
                Result::Err(Error::TransportError(cause)),
            ),
            Ok(resp) => {
                if resp.status != 200 {
                    post == pre && out == UploadOutcome::Complete(
                        Result::Err(Error::InvalidCredentials),
                    )
                } else {
                    match spec_auth_session(resp.body@) {
                        Some(s) => if s.0.len() <= 0x10_0000 && s.1.len() <= 0x10_0000 {
                            &&& post.authenticated
                            &&& post.auth_token@ == s.0
                            &&& post.server@ == s.1
                            &&& post.version == pre.version
                            &&& post.base_path@ == pre.base_path@
                            &&& post.auth_key@ == pre.auth_key@
                            &&& match out {
                                UploadOutcome::Pending(f2, req) => {
                                    &&& f2 matches UploadFlow::FirstAttempt {
                                        sensor: s2,
                                        url: u2,
                                        body: b2,
                                    } && s2@ == sensor@ && u2@ == spec_upload_url(
                                        s.1,
                                        pre.base_path@,
                                        sensor@,
                                        channel@,
                                        s.0,
                                    ) && b2@ == spec_upload_body(pre.version, rate, points@)
                                    &&& req.method == Method::Post
                                    &&& req.url@ == spec_upload_url(
                                        s.1,
                                        pre.base_path@,
                                        sensor@,
                                        channel@,
                                        s.0,
                                    )
                                    &&& req.body@ == spec_upload_body(pre.version, rate, points@)
                                    &&& xdr_content(req)
                                },
                                _ => false,
                            }
                        } else {
                            post == pre && out == UploadOutcome::Complete(
                                Result::Err(Error::InvalidCredentials),
                            )
                        },
                        None => post == pre && out == UploadOutcome::Complete(
                            Result::Err(Error::InvalidCredentials),
                        ),
                    }
                }
            },
        },
        UploadFlow::FirstAttempt { sensor, url, body } => {
            if event matches Ok(resp) && resp.status == 404 {
                &&& post == pre
                &&& match out {
                    UploadOutcome::Pending(f2, req) => {
                        &&& f2 matches UploadFlow::Provisioning { url: u2, body: b2 }
                            && u2@ == url@ && b2@ == body@
                        &&& req.method == Method::Put
                        &&& req.url@ == spec_sensor_url(
                            pre.server@,
                            pre.base_path@,
                            sensor@,
                            pre.auth_token@,
                        )
                        &&& req.body@ == spec_sensor_body(pre.version)
                        &&& xdr_content(req)
                    },
                    _ => false,
                }
            } else {
                post == pre && out == UploadOutcome::Complete(spec_upload_result(event))
            }
        },
        UploadFlow::Provisioning { url, body } => {
            if event matches Ok(resp) && resp.status == 201 {
                &&& post == pre
                &&& match out {
                    UploadOutcome::Pending(f2, req) => {
                        &&& f2 == UploadFlow::SecondAttempt
                        &&& req.method == Method::Post
                        &&& req.url@ == url@
                        &&& req.body@ == body@
                        &&& xdr_content(req)
                    },
                    _ => false,
                }
            } else {
                post == pre && out == UploadOutcome::Complete(spec_provision_result(event))
            }
        },
        UploadFlow::SecondAttempt => post == pre && out == UploadOutcome::Complete(
            spec_upload_result(event),
        ),
    }
}

impl Device {
    /// Machine-limit bounds on the session's strings, so URLs can be built.
    pub open spec fn wf(&self) -> bool {
        &&& self.base_path@.len() <= 0x10_0000
        &&& self.auth_key@.len() <= 0x10_0000
        &&& self.auth_token@.len() <= 0x10_0000
        &&& self.server@.len() <= 0x10_0000
    }

    /// A fresh, unauthenticated device for the given device identifier and
    /// credential.
    pub fn new(device: &str, key: &str) -> (d: Device)
        requires
            device@.len() <= 0xF_0000,
            key@.len() <= 0x10_0000,
        ensures
            d.version == 1,
            d.base_path@ == "/SensorCloud/devices/"@ + device@ + "/"@,
            d.auth_key@ == key@,
            !d.authenticated,
            d.auth_token@ == Seq::<char>::empty(),
            d.server@ == Seq::<char>::empty(),
            d.wf(),
    {
        proof {
            reveal_strlit("/SensorCloud/devices/");
            reveal_strlit("/");
        }
        let mut base = String::new();
        append_str(&mut base, "/SensorCloud/devices/");
        append_str(&mut base, device);
        append_str(&mut base, "/");
        Device {
            version: 1,
            base_path: base,
            auth_key: key.to_owned(),
            authenticated: false,
            auth_token: String::new(),
            server: String::new(),
        }
    }

    /// The authentication request: a GET on the fixed cloud host asking for
    /// the binary content type, with the credential as a query parameter.
    pub fn authenticate_request(&self) -> (req: HttpRequest)
        requires
            self.wf(),
        ensures
            req.method == Method::Get,
            req.url@ == spec_auth_url(self.base_path@, self.auth_key@),
            req.accept matches Some(a) && a@ == "application/xdr"@,
            req.content_type is None,
            req.body@ == Seq::<u8>::empty(),
    {
        proof {
            reveal_strlit("https://sensorcloud.microstrain.com");
            reveal_strlit("authenticate/?version=1&key=");
        }
        let mut url = String::new();
        append_str(&mut url, "https://sensorcloud.microstrain.com");
        append_str(&mut url, self.base_path.as_str());
        append_str(&mut url, "authenticate/?version=1&key=");
        append_str(&mut url, self.auth_key.as_str());
        assert(url@ =~= spec_auth_url(self.base_path@, self.auth_key@));
        HttpRequest {
            method: Method::Get,
            url,
            content_type: None,
            accept: Some(xdr_type()),
            body: Vec::new(),
        }
    }

    /// Takes the authentication response and installs the session, per
    /// [`auth_rel`].
    pub fn authenticate_finish(&mut self, event: Result<HttpResponse, String>) -> (r: Result<
        (),
        Error,
    >)
        requires
            old(self).wf(),
        ensures
            auth_rel(*old(self), event, *final(self), r),
            final(self).wf(),
    {
        match event {
            Err(cause) => Err(Error::TransportError(cause)),
            Ok(resp) => {
                if resp.status != 200 {
                    return Err(Error::InvalidCredentials);
                }
                match parse_auth_response(&resp.body) {
                    None => Err(Error::InvalidCredentials),
                    Some(session) => {
                        let (token, host) = session;
                        self.auth_token = token;
                        self.server = host;
                        self.authenticated = true;
                        Ok(())
                    },
                }
            },
        }
    }

    /// The upload URL for this session.
    fn build_upload_url(&self, sensor: &str, channel: &str) -> (url: String)
        requires
            self.wf(),
            sensor@.len() <= 0x10_0000,
            channel@.len() <= 0x10_0000,
        ensures
            url@ == spec_upload_url(
                self.server@,
                self.base_path@,
                sensor@,
                channel@,
                self.auth_token@,
            ),
    {
        proof {
            reveal_strlit("https://");
            reveal_strlit("sensors/");
            reveal_strlit("/channels/");
            reveal_strlit("/streams/timeseries/data/?version=1&auth_token=");
        }
        let mut url = String::new();
        append_str(&mut url, "https://");
        append_str(&mut url, self.server.as_str());
        append_str(&mut url, self.base_path.as_str());
        append_str(&mut url, "sensors/");
        append_str(&mut url, sensor);
        append_str(&mut url, "/channels/");
        append_str(&mut url, channel);
        append_str(&mut url, "/streams/timeseries/data/?version=1&auth_token=");
        append_str(&mut url, self.auth_token.as_str());
        assert(url@ =~= spec_upload_url(
            self.server@,
            self.base_path@,
            sensor@,
            channel@,
            self.auth_token@,
        ));
        url
    }

    /// The create-sensor request: a PUT of the placeholder sensor shell, per
    /// the protocol's provisioning form.
    pub fn create_sensor_request(&self, sensor: &str) -> (req: HttpRequest)
        requires
            self.wf(),
            sensor@.len() <= 0x10_0000,
        ensures
            req.method == Method::Put,
            req.url@ == spec_sensor_url(self.server@, self.base_path@, sensor@, self.auth_token@),
            req.body@ == spec_sensor_body(self.version),
            xdr_content(req),
    {
        proof {
            reveal_strlit("https://");
            reveal_strlit("sensors/");
            reveal_strlit("/?version=1&auth_token=");
        }
        let mut url = String::new();
        append_str(&mut url, "https://");
        append_str(&mut url, self.server.as_str());
        append_str(&mut url, self.base_path.as_str());
        append_str(&mut url, "sensors/");
        append_str(&mut url, sensor);
        append_str(&mut url, "/?version=1&auth_token=");
        append_str(&mut url, self.auth_token.as_str());
        assert(url@ =~= spec_sensor_url(
            self.server@,
            self.base_path@,
            sensor@,
            self.auth_token@,
        ));
        let body = build_sensor_body(self.version);
        HttpRequest { method: Method::Put, url, content_type: Some(xdr_type()), accept: None, body }
    }

    /// The create-channel request: the parallel provisioning primitive. Per
    /// the protocol, the upload retry only ever provisions the sensor; this
    /// request is never part of the retry path.
    pub fn create_channel_request(&self, sensor: &str, channel: &str) -> (req: HttpRequest)
        requires
            self.wf(),
            sensor@.len() <= 0x10_0000,
            channel@.len() <= 0x10_0000,
        ensures
            req.method == Method::Put,
            req.url@ == spec_channel_url(
                self.server@,
                self.base_path@,
                sensor@,
                channel@,
                self.auth_token@,
            ),
            req.body@ == spec_channel_body(self.version),
            xdr_content(req),
    {
        proof {
            reveal_strlit("https://");
            reveal_strlit("sensors/");
            reveal_strlit("/channels/");
            reveal_strlit("/?version=1&auth_token=");
        }
        let mut url = String::new();
        append_str(&mut url, "https://");
        append_str(&mut url, self.server.as_str());
        append_str(&mut url, self.base_path.as_str());
        append_str(&mut url, "sensors/");
        append_str(&mut url, sensor);
        append_str(&mut url, "/channels/");
        append_str(&mut url, channel);
        append_str(&mut url, "/?version=1&auth_token=");
        append_str(&mut url, self.auth_token.as_str());
        assert(url@ =~= spec_channel_url(
            self.server@,
            self.base_path@,
            sensor@,
            channel@,
            self.auth_token@,
        ));
        let body = build_channel_body(self.version);
        HttpRequest { method: Method::Put, url, content_type: Some(xdr_type()), accept: None, body }
    }

    /// Reads a provisioning response: 201 is success, any other status means
    /// the service rejected the parameters, a transport failure is surfaced.
    pub fn provision_finish(event: Result<HttpResponse, String>) -> (r: Result<(), Error>)
        ensures
            r == spec_provision_result(event),
    {
        match event {
            Ok(resp) => classify_provision_status(resp.status),
            Err(cause) => Err(Error::TransportError(cause)),
        }
    }

    /// Starts an upload: authenticates lazily, per [`start_rel`] — on a fresh
    /// session the authentication request comes out first and the upload's
    /// inputs wait in the flow; otherwise the upload request itself comes out.
    pub fn upload_data(
        &self,
        sensor: &str,
        channel: &str,
        sample_rate: &SampleRate,
        data: &Vec<Point>,
    ) -> (r: (UploadFlow, HttpRequest))
        requires
            self.wf(),
            sensor@.len() <= 0x10_0000,
            channel@.len() <= 0x10_0000,
            data@.len() <= 0x7fff_ffff,
        ensures
            start_rel(*self, sensor@, channel@, *sample_rate, data@, r.0, r.1),
            flow_wf(r.0),
    {
        if !self.authenticated {
            let flow = UploadFlow::Authenticating {
                sensor: sensor.to_owned(),
                channel: channel.to_owned(),
                rate: *sample_rate,
                points: copy_points(data),
            };
            let req = self.authenticate_request();
            (flow, req)
        } else {
            let url = self.build_upload_url(sensor, channel);
            let body = build_upload_body(self.version, sample_rate, data);
            let url2 = url.clone();
            let body2 = copy_bytes(&body);
            let flow = UploadFlow::FirstAttempt { sensor: sensor.to_owned(), url: url2, body: body2 };
            let req = HttpRequest {
                method: Method::Post,
                url,
                content_type: Some(xdr_type()),
                accept: None,
                body,
            };
            (flow, req)
        }
    }

    /// Drives the upload one transport exchange further, per [`step_rel`]:
    /// install the session and send the upload; on a missing channel,
    /// provision the sensor; after a successful provisioning, resend the same
    /// body to the same URL; and classify the attempt that answers.
    pub fn upload_step(&mut self, flow: UploadFlow, event: Result<HttpResponse, String>) -> (r:
        UploadOutcome)
        requires
            old(self).wf(),
            flow_wf(flow),
        ensures
            step_rel(*old(self), flow, event, *final(self), r),
            final(self).wf(),
            r matches UploadOutcome::Pending(f2, _) ==> flow_wf(f2),
    {
        match flow {
            UploadFlow::Authenticating { sensor, channel, rate, points } => {
                match self.authenticate_finish(event) {
                    Err(e) => UploadOutcome::Complete(Err(e)),
                    Ok(()) => {
                        let url = self.build_upload_url(sensor.as_str(), channel.as_str());
                        let body = build_upload_body(self.version, &rate, &points);
                        let url2 = url.clone();
                        let body2 = copy_bytes(&body);
                        let flow2 = UploadFlow::FirstAttempt { sensor, url: url2, body: body2 };
                        let req = HttpRequest {
                            method: Method::Post,
                            url,
                            content_type: Some(xdr_type()),
                            accept: None,
                            body,
                        };
                        UploadOutcome::Pending(flow2, req)
                    },
                }
            },
            UploadFlow::FirstAttempt { sensor, url, body } => match event {
                Err(cause) => UploadOutcome::Complete(Err(Error::TransportError(cause))),
                Ok(resp) => {
                    if resp.status == 404 {
                        let req = self.create_sensor_request(sensor.as_str());
                        UploadOutcome::Pending(UploadFlow::Provisioning { url, body }, req)
                    } else {
                        UploadOutcome::Complete(classify_upload_status(resp.status))
                    }
                },
            },
            UploadFlow::Provisioning { url, body } => match event {
                Err(cause) => UploadOutcome::Complete(Err(Error::TransportError(cause))),
                Ok(resp) => {
                    if resp.status == 201 {
                        let req = HttpRequest {
                            method: Method::Post,
                            url,
                            content_type: Some(xdr_type()),
                            accept: None,
                            body,
                        };
                        UploadOutcome::Pending(UploadFlow::SecondAttempt, req)
                    } else {
                        UploadOutcome::Complete(classify_provision_status(resp.status))
                    }
                },
            },
            UploadFlow::SecondAttempt => match event {
                Err(cause) => UploadOutcome::Complete(Err(Error::TransportError(cause))),
                Ok(resp) => UploadOutcome::Complete(classify_upload_status(resp.status)),
            },
        }
    }
}

/// Lazy authentication: starting an upload on a fresh device issues exactly
/// the authentication request and no upload is sent yet; starting on an
/// authenticated device issues the upload request at once and never an
/// authentication request.
pub proof fn lemma_lazy_authentication(
    dev: Device,
    sensor: Seq<char>,
    channel: Seq<char>,
    rate: SampleRate,
    points: Seq<Point>,
    flow: UploadFlow,
    req: HttpRequest,
)
    requires
        start_rel(dev, sensor, channel, rate, points, flow, req),
    ensures
        !dev.authenticated ==> req.method == Method::Get && req.url@ == spec_auth_url(
            dev.base_path@,
            dev.auth_key@,
        ) && (flow matches UploadFlow::Authenticating { .. }),
        dev.authenticated ==> req.method == Method::Post && req.url@ == spec_upload_url(
            dev.server@,
            dev.base_path@,
            sensor,
            channel,
            dev.auth_token@,
        ) && (flow matches UploadFlow::FirstAttempt { .. }),
{
}

/// Once past the start, no step of an upload authenticates again: from any
/// flow state but the pending authentication, the session is untouched and no
/// authentication request (the protocol's only GET) is ever issued.
pub proof fn lemma_no_reauthentication(
    pre: Device,
    flow: UploadFlow,
    event: Result<HttpResponse, String>,
    post: Device,
    out: UploadOutcome,
)
    requires
        step_rel(pre, flow, event, post, out),
        !(flow matches UploadFlow::Authenticating { .. }),
    ensures
        post == pre,
        out matches UploadOutcome::Pending(f2, req) ==> !(f2
            matches UploadFlow::Authenticating { .. }) && req.method != Method::Get,
{
}

/// The retry is single: whatever the transport answers to the second attempt,
/// the step completes the upload and no further request comes out.
pub proof fn lemma_second_attempt_is_final(
    pre: Device,
    event: Result<HttpResponse, String>,
    post: Device,
    out: UploadOutcome,
)
    requires
        step_rel(pre, UploadFlow::SecondAttempt, event, post, out),
    ensures
        post == pre,
        out == UploadOutcome::Complete(spec_upload_result(event)),
        out matches UploadOutcome::Complete(_),
{
}

/// Retry once: when every upload attempt is answered "channel not found", the
/// machine performs exactly one provisioning call and exactly two upload
/// attempts — the retry resends the first attempt's URL and body unchanged —
/// and the second attempt's error is the final result.
pub proof fn lemma_retry_once(
    d0: Device,
    sensor: String,
    url: String,
    body: Vec<u8>,
    r1: HttpResponse,
    d1: Device,
    f1: UploadFlow,
    q1: HttpRequest,
    r2: HttpResponse,
    d2: Device,
    f2: UploadFlow,
    q2: HttpRequest,
    r3: HttpResponse,
    d3: Device,
    out: UploadOutcome,
)
    requires
        step_rel(
            d0,
            (UploadFlow::FirstAttempt { sensor, url, body }),
            Result::Ok(r1),
            d1,
            UploadOutcome::Pending(f1, q1),
        ),
        r1.status == 404,
        step_rel(d1, f1, Result::Ok(r2), d2, UploadOutcome::Pending(f2, q2)),
        r2.status == 201,
        step_rel(d2, f2, Result::Ok(r3), d3, out),
        r3.status == 404,
    ensures
        q1.method == Method::Put,
        q1.url@ == spec_sensor_url(d0.server@, d0.base_path@, sensor@, d0.auth_token@),
        q1.body@ == spec_sensor_body(d0.version),
        q2.method == Method::Post,
        q2.url@ == url@,
        q2.body@ == body@,
        f2 == UploadFlow::SecondAttempt,
        out == UploadOutcome::Complete(Result::Err(Error::ChannelNotFound)),
        d3 == d0,
{
}

} // verus!
