//! The outcome of one timed HTTP GET: a success carrying latency, status line
//! and body text, or a failure carrying a description of what went wrong.
use vstd::prelude::*;
use vstd::utf8::{decode_utf8, valid_utf8};

verus! {

#[verifier::external_type_specification]
#[verifier::external_body]
pub struct ExUri(hyper::Uri);

#[verifier::external_type_specification]
#[verifier::external_body]
pub struct ExNaiveDateTime(chrono::NaiveDateTime);

/// The result of one request attempt. A `Success` means the HTTP exchange
/// completed (whatever status code came back); a `Failure` means it did not.
/// There is no partially filled record.
#[derive(Debug, PartialEq, Eq)]
pub enum RequestResult {
    Success { sequence_id: u32, latency_ms: i64, status: String, body: String },
    Failure { sequence_id: u32, cause: String },
}

impl RequestResult {
    /// The sequence id, whichever the variant.
    pub open spec fn id(&self) -> u32 {
        match self {
            RequestResult::Success { sequence_id, .. } => *sequence_id,
            RequestResult::Failure { sequence_id, .. } => *sequence_id,
        }
    }

    pub fn sequence_id(&self) -> (r: u32)
        ensures
            r == self.id(),
    {
        match self {
            RequestResult::Success { sequence_id, .. } => *sequence_id,
            RequestResult::Failure { sequence_id, .. } => *sequence_id,
        }
    }

    pub fn is_success(&self) -> (r: bool)
        ensures
            r == self is Success,
    {
        matches!(self, RequestResult::Success { .. })
    }

    /// The latency of a success, `None` for a failure.
    pub fn latency(&self) -> (r: Option<i64>)
        ensures
            r == (if self is Success { Some(self->latency_ms) } else { None::<i64> }),
    {
        match self {
            RequestResult::Success { latency_ms, .. } => Some(*latency_ms),
            RequestResult::Failure { .. } => None,
        }
    }
}

/// Relies on `String::from_utf8`: it succeeds exactly on valid UTF-8 and then
/// holds the decoded characters.
#[verifier::external_body]
fn decode_body(bytes: Vec<u8>) -> (r: Option<String>)
    ensures
        r is Some <==> valid_utf8(bytes@),
        r is Some ==> r->0@ == decode_utf8(bytes@),
{
    String::from_utf8(bytes).ok()
}

/// Relies on chrono's `NaiveDateTime - NaiveDateTime` and `TimeDelta::num_milliseconds`:
/// the whole milliseconds elapsed from `start` to `end`.
#[verifier::external_body]
fn millis_between(start: &chrono::NaiveDateTime, end: &chrono::NaiveDateTime) -> (r: i64)
{
    (*end - *start).num_milliseconds()
}

/// Whether hyper's `Uri` parser accepts the text.
pub uninterp spec fn uri_accepts(s: Seq<char>) -> bool;

/// Relies on `<hyper::Uri as FromStr>::from_str`, whose outcome depends on the
/// text alone.
#[verifier::external_body]
fn parse_uri(s: &str) -> (r: Option<hyper::Uri>)
    ensures
        r is Some <==> uri_accepts(s@),
{
    s.parse::<hyper::Uri>().ok()
}

/// `r` is a failure of request `sequence_id` with the given cause.
pub open spec fn is_failure(r: RequestResult, sequence_id: u32, cause: Seq<char>) -> bool {
    match r {
        RequestResult::Failure { sequence_id: id, cause: c } => id == sequence_id && c@ == cause,
        RequestResult::Success { .. } => false,
    }
}

/// The cause recorded when the target address cannot be parsed.
pub open spec fn bad_address_cause() -> Seq<char> {
    "Failed to parse url address"@
}

/// The outcome of an exchange that completed, given the elapsed time, the
/// status line and the body once decoded: a success when the body was text,
/// a decode failure otherwise.
pub open spec fn exchange_outcome(
    sequence_id: u32,
    latency_ms: i64,
    status: Seq<char>,
    text: Option<String>,
    r: RequestResult,
) -> bool {
    match text {
        Some(t) => match r {
            RequestResult::Success { sequence_id: id, latency_ms: l, status: s, body: b } => id
                == sequence_id && l == latency_ms && s@ == status && b@ == t@,
            RequestResult::Failure { .. } => false,
        },
        None => is_failure(r, sequence_id, undecodable_cause()),
    }
}

/// The cause recorded when the response body is not valid UTF-8.
pub open spec fn undecodable_cause() -> Seq<char> {
    "Response body is not valid UTF-8"@
}

/// Builds the outcome of a completed exchange from the body as decoded.
pub fn record_exchange(sequence_id: u32, latency_ms: i64, status: String, text: Option<String>) -> (r:
    RequestResult)
    ensures
        exchange_outcome(sequence_id, latency_ms, status@, text, r),
{
    match text {
        Some(body) => RequestResult::Success { sequence_id, latency_ms, status, body },
        None => {
            let cause = String::from_str("Response body is not valid UTF-8");
            proof { reveal_strlit("Response body is not valid UTF-8"); }
            RequestResult::Failure { sequence_id, cause }
        },
    }
}

/// Builds the outcome of a completed exchange timed from `start` to `end`:
/// the raw body becomes the text of a success when it is valid UTF-8, and a
/// failure otherwise.
pub fn finish_exchange(
    sequence_id: u32,
    start: &chrono::NaiveDateTime,
    end: &chrono::NaiveDateTime,
    status: String,
    body: Vec<u8>,
) -> (r: RequestResult)
    ensures
        r.id() == sequence_id,
        r is Success <==> valid_utf8(body@),
        r is Success ==> r->status@ == status@ && r->body@ == decode_utf8(body@),
        !valid_utf8(body@) ==> is_failure(r, sequence_id, undecodable_cause()),
{
    let latency_ms = millis_between(start, end);
    let text = decode_body(body);
    record_exchange(sequence_id, latency_ms, status, text)
}

/// Builds the failure of an attempt whose exchange did not complete.
pub fn transport_failure(sequence_id: u32, cause: String) -> (r: RequestResult)
    ensures
        r == (RequestResult::Failure { sequence_id, cause }),
{
    RequestResult::Failure { sequence_id, cause }
}

/// Parses the target address of a request; an address that cannot be parsed
/// becomes the failure of that request instead of a fault.
pub fn prepare_target(url: &str, sequence_id: u32) -> (r: Result<hyper::Uri, RequestResult>)
    ensures
        r is Ok <==> uri_accepts(url@),
        r is Err ==> is_failure(r->Err_0, sequence_id, bad_address_cause()),
{
    match parse_uri(url) {
        Some(uri) => Ok(uri),
        None => {
            let cause = String::from_str("Failed to parse url address");
            proof { reveal_strlit("Failed to parse url address"); }
            Err(RequestResult::Failure { sequence_id, cause })
        },
    }
}

} // verus!
