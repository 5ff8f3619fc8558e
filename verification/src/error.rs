//! The error taxonomy, and the response classifier that every endpoint
//! routes its HTTP outcome through. The service reuses generic status codes
//! for several distinct conditions and names the true one only in a JSON
//! error body, so classification must read the body, not just the status.

use vstd::prelude::*;

use crate::json::{
    get_str_field, obj_entries, object_entries, parse_json, parsed_json, pairs_view, str_eq,
    str_field,
};

verus! {

/// What a call against the service can fail with. Every fallible operation
/// of this crate reports one of these.
#[derive(Debug)]
pub enum Error {
    /// The request used an invalid access token or was not authenticated.
    Unauthorized,
    /// The maximum number of requests has been exceeded.
    TooManyRequests,
    /// The service answered with an error status that means nothing more
    /// specific; the original status and body are kept as the cause.
    RequestFailed { status: u16, body: Vec<u8> },
    /// The outbound form could not be built.
    SerializationFailed,
    /// The response arrived but its body did not match the expected shape;
    /// `path` names the field at which decoding failed.
    DeserializationFailed { path: String },
}

/// The mathematical view of an [`Error`].
pub enum ErrorV {
    Unauthorized,
    TooManyRequests,
    RequestFailed { status: u16, body: Seq<u8> },
    SerializationFailed,
    DeserializationFailed { path: Seq<char> },
}

impl View for Error {
    type V = ErrorV;

    open spec fn view(&self) -> ErrorV {
        match self {
            Error::Unauthorized => ErrorV::Unauthorized,
            Error::TooManyRequests => ErrorV::TooManyRequests,
            Error::RequestFailed { status, body } => ErrorV::RequestFailed {
                status: *status,
                body: body@,
            },
            Error::SerializationFailed => ErrorV::SerializationFailed,
            Error::DeserializationFailed { path } => ErrorV::DeserializationFailed {
                path: path@,
            },
        }
    }
}

impl Error {
    /// A short description of the error, in place of a `Display` rendering.
    pub fn message(&self) -> (r: &'static str)
        ensures
            self@ is Unauthorized ==> r@
                == "The request used an invalid access token or was not authenticated"@,
            self@ is TooManyRequests ==> r@
                == "The maximum number of requests has been exceeded"@,
    {
        match self {
            Error::Unauthorized => "The request used an invalid access token or was not authenticated",
            Error::TooManyRequests => "The maximum number of requests has been exceeded",
            Error::RequestFailed { .. } => "The request failed",
            Error::SerializationFailed => "The request body could not be encoded",
            Error::DeserializationFailed { .. } => "The response body could not be decoded",
        }
    }
}

/// The `error` field of a JSON error body: the body parsed as a JSON object
/// with a string under the key `error`.
pub open spec fn spec_error_field(body: Seq<u8>) -> Option<Seq<char>> {
    match parsed_json(body) {
        Some(doc) => match obj_entries(doc) {
            Some(entries) => str_field(entries, "error"@),
            None => None,
        },
        None => None,
    }
}

/// Whether an error message is the service's rate-limit notice: it starts
/// and ends with the fixed German phrase around a variable middle.
pub open spec fn is_rate_limit_message(msg: Seq<char>) -> bool {
    &&& msg.len() >= "Die maximale Anzahl der Requests"@.len()
    &&& msg.take("Die maximale Anzahl der Requests"@.len() as int)
        == "Die maximale Anzahl der Requests"@
    &&& msg.len() >= "ist überschritten!"@.len()
    &&& msg.skip(msg.len() - "ist überschritten!"@.len()) == "ist überschritten!"@
}

/// How an HTTP outcome classifies: success statuses pass; the dedicated
/// "not authenticated" status with the exact server string for
/// "unauthorized" is `Unauthorized`; the "forbidden" status with the
/// rate-limit notice is `TooManyRequests`; every other error status keeps
/// its status and body as a plain request failure.
pub open spec fn spec_classify(status: u16, body: Seq<u8>) -> Result<(), ErrorV> {
    if status < 400 || status >= 600 {
        Ok(())
    } else if status == 401 && spec_error_field(body) == Some("Unauthorized"@) {
        Err(ErrorV::Unauthorized)
    } else if status == 403 && spec_error_field(body) is Some && is_rate_limit_message(
        spec_error_field(body)->0,
    ) {
        Err(ErrorV::TooManyRequests)
    } else {
        Err(ErrorV::RequestFailed { status, body })
    }
}

/// Reads the `error` field out of a JSON error body.
fn error_field(body: &Vec<u8>) -> (r: Option<String>)
    ensures
        r is Some <==> spec_error_field(body@) is Some,
        r is Some ==> r->0@ == spec_error_field(body@)->0,
{
    match parse_json(body.as_slice()) {
        Ok(doc) => match object_entries(&doc) {
            Some(entries) => get_str_field(&entries, "error"),
            None => None,
        },
        Err(_) => None,
    }
}

/// Whether `s` begins with `prefix`.
pub(crate) fn str_starts_with(s: &str, prefix: &str) -> (r: bool)
    ensures
        r == (s@.len() >= prefix@.len() && s@.take(prefix@.len() as int) == prefix@),
{
    let n = s.unicode_len();
    let m = prefix.unicode_len();
    if n < m {
        return false;
    }
    for i in 0..m
        invariant
            m <= n,
            n == s@.len(),
            m == prefix@.len(),
            forall|j: int| 0 <= j < i ==> s@[j] == prefix@[j],
    {
        if s.get_char(i) != prefix.get_char(i) {
            assert(s@.take(m as int)[i as int] != prefix@[i as int]);
            return false;
        }
    }
    assert(s@.take(m as int) =~= prefix@);
    true
}

/// Whether `s` ends with `suffix`.
pub(crate) fn str_ends_with(s: &str, suffix: &str) -> (r: bool)
    ensures
        r == (s@.len() >= suffix@.len() && s@.skip(s@.len() - suffix@.len()) == suffix@),
{
    let n = s.unicode_len();
    let m = suffix.unicode_len();
    if n < m {
        return false;
    }
    let off = n - m;
    for i in 0..m
        invariant
            m <= n,
            n == s@.len(),
            m == suffix@.len(),
            off == n - m,
            forall|j: int| 0 <= j < i ==> s@[off + j] == suffix@[j],
    {
        if s.get_char(off + i) != suffix.get_char(i) {
            assert(s@.skip(off as int)[i as int] != suffix@[i as int]);
            return false;
        }
    }
    assert(s@.skip(off as int) =~= suffix@);
    true
}

/// Copies a byte vector.
fn clone_bytes(v: &Vec<u8>) -> (r: Vec<u8>)
    ensures
        r@ == v@,
{
    let mut out: Vec<u8> = Vec::new();
    let n = v.len();
    for i in 0..n
        invariant
            n == v@.len(),
            out@ == v@.take(i as int),
    {
        out.push(v[i]);
        proof {
            assert(v@.take(i + 1) =~= v@.take(i as int).push(v@[i as int]));
        }
    }
    proof {
        assert(v@.take(n as int) =~= v@);
    }
    out
}

/// Classifies an HTTP outcome, exactly as [`spec_classify`] says: a success
/// status passes, and an error status yields `Unauthorized`,
/// `TooManyRequests` or a plain request failure depending on the status and
/// the error body.
pub fn error_for_status(status: u16, body: &Vec<u8>) -> (r: Result<(), Error>)
    ensures
        r is Ok <==> spec_classify(status, body@) is Ok,
        r matches Err(e) ==> e@ == spec_classify(status, body@)->Err_0,
{
    if status < 400 || status >= 600 {
        return Ok(());
    }
    if status == 401 {
        if let Some(msg) = error_field(body) {
            if str_eq(&msg, "Unauthorized") {
                return Err(Error::Unauthorized);
            }
        }
    } else if status == 403 {
        if let Some(msg) = error_field(body) {
            if str_starts_with(msg.as_str(), "Die maximale Anzahl der Requests")
                && str_ends_with(msg.as_str(), "ist überschritten!") {
                return Err(Error::TooManyRequests);
            }
        }
    }
    Err(Error::RequestFailed { status, body: clone_bytes(body) })
}

} // verus!
