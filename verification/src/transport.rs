//! Transport and decoding layer: one HTTP round trip as a capability trait,
//! the response envelope, and the typed caller composing the two.

use vstd::prelude::*;
use vstd::string::StringExecFns;

use crate::json::{spec_obj_get, Json};
use crate::numbers::{spec_u64_digits, u64_to_string};
use crate::{spec_status_is_failure, status_is_failure};

verus! {

/// HTTP method of a request; the library only issues GET and POST calls.
#[derive(Debug, Clone, Copy, PartialEq, Eq, Structural)]
pub enum HttpMethod {
    Get,
    Post,
}

/// A request descriptor: relative endpoint path, method, query parameters in
/// insertion order, and an optional JSON body.
#[derive(Debug)]
pub struct Request {
    pub endpoint: String,
    pub method: HttpMethod,
    pub params: Vec<(String, String)>,
    pub body: Option<Json>,
}

/// One HTTP reply: the status code and the full body text, which is kept
/// regardless of the status, since an error response may still carry a
/// structured error payload.
#[derive(Debug, Clone)]
pub struct HttpReply {
    pub status: u16,
    pub body: String,
}

/// Errors of the transport/decoding layer.
#[derive(Debug, Clone, PartialEq, Eq)]
pub enum Error {
    /// Connectivity, TLS, timeout, or another failure below HTTP; an HTTP
    /// failure status with an undecodable body also lands here, with the
    /// status and the body kept in the description.
    NetworkError { description: String },
    /// The response text is neither a valid success payload nor an error
    /// envelope; the raw text is kept verbatim for diagnosis.
    ParseError { description: String, raw: String },
}

impl Error {
    /// Wrap the description of a failure below HTTP.
    pub fn from_network_error(description: String) -> (r: Self)
        ensures
            r == (Error::NetworkError { description }),
    {
        Error::NetworkError { description }
    }

    /// Wrap the description of a decoding failure, keeping the raw text.
    pub fn from_parse_error(description: String, raw: String) -> (r: Self)
        ensures
            r == (Error::ParseError { description, raw }),
    {
        Error::ParseError { description, raw }
    }
}

/// The response envelope: either the expected payload or a server-reported
/// error code (the wire shape `{"errorCode": "..."}`).
#[derive(Debug, PartialEq, Eq)]
pub enum Rsp<T> {
    Error { error: String },
    OK(T),
}

/// Capability for one HTTP round trip. Implemented by the real network
/// transport outside the library and by scripted doubles in tests.
///
/// `Ok` carries the reply — any status, with the full body text — and `Err`
/// the description of a failure below HTTP. Nothing further is assumed of an
/// implementation: every caller states what holds of whatever came back.
pub trait Transport {
    /// Issue exactly one HTTP request for the given descriptor.
    fn call(&mut self, req: &Request) -> Result<HttpReply, String>;
}

/// A decode attempt for a payload type: what a JSON document decodes to,
/// `None` when the shape does not match.
pub trait FromJson: Sized {
    /// The decoded value of a document for this type.
    spec fn from_json_spec(j: Json) -> Option<Self>;

    /// Structural decode, consuming the document.
    fn from_json(j: Json) -> (r: Option<Self>)
        ensures
            r == Self::from_json_spec(j),
    ;
}

#[verifier::external_type_specification]
#[verifier::external_body]
pub struct ExValue(serde_json::Value);

/// What `serde_json::from_str::<serde_json::Value>` parses a given text into,
/// rewritten into the library's own [`Json`] form; `None` when the text is
/// not valid JSON. The result depends on the text alone.
pub uninterp spec fn json_of(s: Seq<char>) -> Option<Json>;

/// Helper of [`parse_json`]; relies on `serde_json::Value`'s public variants,
/// each rewritten one for one into the library's own form. A number with an
/// exact `u64` value becomes `Num`; any other number becomes `NumText` with
/// its display text (the shortest rendering of the double the parser read);
/// object fields come out in the parsed map's key order.
#[verifier::external_body]
fn json_from_value(v: &serde_json::Value) -> Json {
    match v {
        serde_json::Value::Null => Json::Null,
        serde_json::Value::Bool(b) => Json::Bool(*b),
        serde_json::Value::Number(n) => match n.as_u64() {
            Some(u) => Json::Num(u),
            None => Json::NumText(n.to_string()),
        },
        serde_json::Value::String(s) => Json::Str(s.clone()),
        serde_json::Value::Array(a) => Json::Arr(a.iter().map(json_from_value).collect()),
        serde_json::Value::Object(m) => Json::Obj(
            m.iter().map(|(k, x)| (k.clone(), json_from_value(x))).collect(),
        ),
    }
}

/// Relies on `serde_json::from_str::<serde_json::Value>`: the parse result
/// depends on the text alone, and is rewritten into [`Json`] by
/// [`json_from_value`].
#[verifier::external_body]
fn parse_json(raw: &str) -> (r: Option<Json>)
    ensures
        r == json_of(raw@),
{
    match serde_json::from_str::<serde_json::Value>(raw) {
        Ok(v) => Some(json_from_value(&v)),
        Err(_) => None,
    }
}

/// The error envelope's code: the value of a string field `errorCode` on a
/// top-level JSON object.
pub open spec fn spec_error_code(j: Json) -> Option<Seq<char>> {
    match j {
        Json::Obj(fields) => match spec_obj_get(fields@, "errorCode"@) {
            Some(Json::Str(code)) => Some(code@),
            _ => None,
        },
        _ => None,
    }
}

fn error_code_of(j: &Json) -> (r: Option<String>)
    ensures
        match r {
            Some(code) => spec_error_code(*j) == Some(code@),
            None => spec_error_code(*j) is None,
        },
{
    match j {
        Json::Obj(fields) => match crate::json::obj_get(fields, &"errorCode".to_owned()) {
            Some(Json::Str(code)) => Some(code.clone()),
            _ => None,
        },
        _ => None,
    }
}

/// Spec-level outcome of decoding one response text.
pub enum SpecEnvelope<T> {
    /// The text is the expected success payload.
    Success(T),
    /// The text is the error envelope, with this server-supplied code.
    Failure(Seq<char>),
    /// The text matches neither shape (or is not valid JSON at all).
    Undecodable,
}

/// What decoding a response text yields for payload type `T`. The success
/// shape is tried first and the error envelope only on its failure; this
/// order is load-bearing, since a payload whose shape overlaps the error
/// envelope's must decode as a success.
pub open spec fn spec_decode<T: FromJson>(s: Seq<char>) -> SpecEnvelope<T> {
    match json_of(s) {
        Some(j) => match T::from_json_spec(j) {
            Some(v) => SpecEnvelope::Success(v),
            None => match spec_error_code(j) {
                Some(code) => SpecEnvelope::Failure(code),
                None => SpecEnvelope::Undecodable,
            },
        },
        None => SpecEnvelope::Undecodable,
    }
}

/// The fixed diagnostic text of a decode failure.
pub open spec fn spec_parse_error_text() -> Seq<char> {
    "response is neither the expected payload nor an error envelope"@
}

fn parse_error_text() -> (r: String)
    ensures
        r@ == spec_parse_error_text(),
{
    "response is neither the expected payload nor an error envelope".to_owned()
}

/// How an executable decode result realises the spec-level outcome: a success
/// is the `OK` envelope with exactly the decoded value; an error envelope is
/// the `Error` variant with exactly the server's code; anything else is a
/// `ParseError` carrying the raw text verbatim.
pub open spec fn decode_matches<T: FromJson>(
    m: SpecEnvelope<T>,
    r: Result<Rsp<T>, Error>,
    raw: Seq<char>,
) -> bool {
    match m {
        SpecEnvelope::Success(v) => r == Ok::<Rsp<T>, Error>(Rsp::OK(v)),
        SpecEnvelope::Failure(code) => (r matches Ok(Rsp::Error { error }) && error@ == code),
        SpecEnvelope::Undecodable => (r matches Err(Error::ParseError { description, raw: kept })
            && kept@ == raw && description@ == spec_parse_error_text()),
    }
}

/// Decode a raw response text into the envelope: try the success shape first,
/// fall back to the error envelope, and fail with a `ParseError` carrying the
/// raw text when neither matches.
pub fn decode<T: FromJson>(raw: &str) -> (r: Result<Rsp<T>, Error>)
    ensures
        decode_matches::<T>(spec_decode::<T>(raw@), r, raw@),
{
    match parse_json(raw) {
        Some(j) => {
            let code = error_code_of(&j);
            match T::from_json(j) {
                Some(v) => Ok(Rsp::OK(v)),
                None => match code {
                    Some(c) => Ok(Rsp::Error { error: c }),
                    None => Err(Error::ParseError {
                        description: parse_error_text(),
                        raw: raw.to_owned(),
                    }),
                },
            }
        },
        None => Err(Error::ParseError { description: parse_error_text(), raw: raw.to_owned() }),
    }
}

/// The description kept when an HTTP failure status arrives without a
/// decodable error envelope: the status and the body, verbatim.
pub open spec fn spec_http_failure_text(status: u16, body: Seq<char>) -> Seq<char> {
    "received HTTP status "@ + spec_u64_digits(status as u64) + " with body: "@ + body
}

fn http_failure_text(status: u16, body: &String) -> (r: String)
    ensures
        r@ == spec_http_failure_text(status, body@),
{
    let mut s = "received HTTP status ".to_owned();
    let digits = u64_to_string(status as u64);
    s.append(digits.as_str());
    s.append(" with body: ");
    s.append(body.as_str());
    s
}

/// Does `r` land on an HTTP failure status without a decodable error
/// envelope: a network-layer error keeping the status and the body.
pub open spec fn is_http_failure_error<T>(reply: HttpReply, r: Result<T, crate::Error>) -> bool {
    r matches Err(crate::Error::TransportError { source: Error::NetworkError { description } })
        && description@ == spec_http_failure_text(reply.status, reply.body@)
}

/// How the result of one typed call realises one transport outcome.
///
/// A failure below HTTP is a transport error with its cause. Otherwise the
/// body is decoded: a server-reported error code is the domain error whatever
/// the status, so a structured error inside an HTTP failure response is never
/// swallowed; a success payload is the value, unless the status is a failure;
/// on a failure status without an error envelope the status and body are
/// kept; an undecodable body on a success status is the decode failure,
/// folded into the transport error.
pub open spec fn interpret_matches<T: FromJson>(
    outcome: Result<HttpReply, String>,
    r: Result<T, crate::Error>,
) -> bool {
    match outcome {
        Result::Err(cause) => r == Err::<T, crate::Error>(
            crate::Error::TransportError { source: Error::NetworkError { description: cause } },
        ),
        Result::Ok(reply) => match spec_decode::<T>(reply.body@) {
            SpecEnvelope::Failure(code) => (r matches Err(crate::Error::QiwiError { description })
                && description@ == code),
            SpecEnvelope::Success(v) => if spec_status_is_failure(reply.status) {
                is_http_failure_error::<T>(reply, r)
            } else {
                r == Ok::<T, crate::Error>(v)
            },
            SpecEnvelope::Undecodable => if spec_status_is_failure(reply.status) {
                is_http_failure_error::<T>(reply, r)
            } else {
                (r matches Err(crate::Error::TransportError {
                    source: Error::ParseError { description, raw },
                }) && raw@ == reply.body@ && description@ == spec_parse_error_text())
            },
        },
    }
}

/// Interpret one transport outcome as the result of a typed call. This is
/// the whole decision logic of a call, verified for every outcome a
/// transport could return.
pub fn interpret_outcome<T: FromJson>(outcome: Result<HttpReply, String>) -> (r: Result<
    T,
    crate::Error,
>)
    ensures
        interpret_matches::<T>(outcome, r),
{
    match outcome {
        Err(cause) => Err(crate::Error::TransportError {
            source: Error::NetworkError { description: cause },
        }),
        Ok(reply) => {
            let failed = status_is_failure(reply.status);
            match decode::<T>(reply.body.as_str()) {
                Ok(Rsp::Error { error }) => Err(crate::Error::QiwiError { description: error }),
                Ok(Rsp::OK(v)) => {
                    if failed {
                        Err(crate::Error::TransportError {
                            source: Error::NetworkError {
                                description: http_failure_text(reply.status, &reply.body),
                            },
                        })
                    } else {
                        Ok(v)
                    }
                },
                Err(e) => {
                    if failed {
                        Err(crate::Error::TransportError {
                            source: Error::NetworkError {
                                description: http_failure_text(reply.status, &reply.body),
                            },
                        })
                    } else {
                        Err(crate::Error::TransportError { source: e })
                    }
                },
            }
        },
    }
}

/// The typed caller: a transport plus envelope decoding.
#[derive(Debug)]
pub struct CallerWrapper<C: Transport> {
    pub transport: C,
}

impl<C: Transport> CallerWrapper<C> {
    /// One typed call: a single transport round trip, then envelope decoding.
    /// Whatever the transport returned, the result is its interpretation.
    pub fn call<T: FromJson>(&mut self, req: &Request) -> (r: Result<T, crate::Error>)
        ensures
            exists|outcome: Result<HttpReply, String>| interpret_matches::<T>(outcome, r),
    {
        let outcome = self.transport.call(req);
        let ghost o = outcome;
        let r = interpret_outcome::<T>(outcome);
        proof {
            assert(interpret_matches::<T>(o, r));
        }
        r
    }
}

} // verus!
