//! The response interpreter: raw status and body in, typed outcome out.

use vstd::prelude::*;
use crate::error::{Error, ErrorReason, Rejection};

verus! {

/// The typed outcome of one exchange with the gateway.
#[derive(Clone, Debug, PartialEq)]
pub enum Outcome {
    /// The notification was accepted; the gateway's identifier for it,
    /// when the response carried one.
    Success { apns_id: Option<String> },
    /// The notification was rejected.
    Rejection(Rejection),
}

/// What the gateway's JSON error body deserializes to: the reason token
/// and the optional millisecond timestamp, or nothing when the body is not
/// of that shape.
pub uninterp spec fn parsed_error_body(b: Seq<u8>) -> Option<(Seq<char>, Option<u64>)>;

/// The view of a parsed error body.
pub open spec fn parsed_view(r: Option<(String, Option<u64>)>) -> Option<(Seq<char>, Option<u64>)> {
    match r {
        Some((s, t)) => Some((s@, t)),
        None => None,
    }
}

/// Relies on `serde_json::from_slice` and the `serde_json::Value`
/// accessors `get`, `as_str` and `as_u64`: deserializes the gateway's
/// error body `{"reason": string, "timestamp"?: number}`, returning
/// nothing when the body is not JSON or has no string `reason` member.
#[verifier::external_body]
fn parse_error_body(body: &Vec<u8>) -> (r: Option<(String, Option<u64>)>)
    ensures
        parsed_view(r) == parsed_error_body(body@),
{
    let v: serde_json::Value = match serde_json::from_slice(body.as_slice()) {
        Ok(v) => v,
        Err(_) => return None,
    };
    let reason = match v.get("reason").and_then(|r| r.as_str()) {
        Some(s) => s.to_owned(),
        None => return None,
    };
    let timestamp = v.get("timestamp").and_then(|t| t.as_u64());
    Some((reason, timestamp))
}

/// The view of the optional response identifier header.
pub open spec fn id_view(apns_id: Option<&String>) -> Option<Seq<char>> {
    match apns_id {
        Some(s) => Some(s@),
        None => None,
    }
}

/// Whether an outcome matches a status, identifier header and parsed
/// error body: status 200 is a success carrying the identifier header;
/// any other status is a rejection with the parsed reason and timestamp,
/// or with the `Unknown` reason and no timestamp when nothing parsed.
pub open spec fn spec_outcome(
    status: u16,
    apns_id: Option<Seq<char>>,
    parsed: Option<(Seq<char>, Option<u64>)>,
    r: Outcome,
) -> bool {
    if status == 200 {
        match (r, apns_id) {
            (Outcome::Success { apns_id: Some(id) }, Some(h)) => id@ == h,
            (Outcome::Success { apns_id: None }, None) => true,
            _ => false,
        }
    } else {
        match r {
            Outcome::Rejection(rej) => match parsed {
                Some((reason, timestamp)) => rej.reason == ErrorReason::spec_from_str(reason)
                    && rej.timestamp == timestamp,
                None => rej.reason == ErrorReason::Unknown && rej.timestamp is None,
            },
            _ => false,
        }
    }
}

/// Classify a status, identifier header and already-parsed error body.
/// This is total: every input yields an outcome.
pub fn classify(status: u16, apns_id: Option<&String>, parsed: Option<(String, Option<u64>)>) -> (r:
    Outcome)
    ensures
        spec_outcome(status, id_view(apns_id), parsed_view(parsed), r),
{
    if status == 200 {
        match apns_id {
            Some(id) => Outcome::Success { apns_id: Some(id.clone()) },
            None => Outcome::Success { apns_id: None },
        }
    } else {
        match parsed {
            Some((reason, timestamp)) => Outcome::Rejection(
                Rejection { reason: ErrorReason::from_reason_str(reason.as_str()), timestamp },
            ),
            None => Outcome::Rejection(Rejection { reason: ErrorReason::Unknown, timestamp: None }),
        }
    }
}

/// Interpret a gateway response: never fails; an unparseable failure body
/// degrades to a rejection with the `Unknown` reason.
pub fn interpret(status: u16, apns_id: Option<&String>, body: Option<&Vec<u8>>) -> (r: Outcome)
    ensures
        spec_outcome(
            status,
            id_view(apns_id),
            match body {
                Some(b) => parsed_error_body(b@),
                None => None,
            },
            r,
        ),
{
    let parsed = match body {
        Some(b) => parse_error_body(b),
        None => None,
    };
    classify(status, apns_id, parsed)
}

impl Outcome {
    /// Fold a rejection into the error taxonomy: a success yields its
    /// identifier, a rejection the corresponding response error.
    pub fn into_result(self) -> (r: Result<Option<String>, Error>)
        ensures
            match self {
                Outcome::Success { apns_id } => r == Ok::<Option<String>, Error>(apns_id),
                Outcome::Rejection(rej) => r == Err::<Option<String>, Error>(
                    Error::ResponseError(rej),
                ),
            },
    {
        match self {
            Outcome::Success { apns_id } => Ok(apns_id),
            Outcome::Rejection(rej) => Err(Error::ResponseError(rej)),
        }
    }
}

} // verus!
