//! The commands that arrive on the configuration topic.

use crate::gcp_iot::{DeviceIdentity, DeviceIdentityView};
use crate::json::{json_document, json_member, json_u64, member, parse};
use vstd::prelude::*;

verus! {

/// Why a command could not be decoded.
#[derive(Clone, Copy, Debug, PartialEq, Eq, Structural)]
pub enum DecodeError {
    /// The body is no JSON object with a count that is a non-negative
    /// integer within range.
    MalformedRequest,
}

/// The request to run one cycle of `count` picks.
#[derive(Clone, Copy, Debug, PartialEq, Eq, Structural)]
pub struct StartRequest {
    pub count: u32,
}

/// The member `count` of the JSON object `text`, where there is one and it
/// is a non-negative integer.
pub open spec fn count_member(text: Seq<char>) -> Option<u64> {
    match json_document(text) {
        Some(document) => match json_member(document, "count"@) {
            Some(count) => json_u64(count),
            None => None,
        },
        None => None,
    }
}

/// The request that a count stands for: one within the range of `u32` is
/// taken as it is, and anything else is malformed. Nothing is coerced.
pub open spec fn decoded(count: Option<u64>) -> Result<StartRequest, DecodeError> {
    match count {
        Some(c) if c <= u32::MAX => Ok(StartRequest { count: c as u32 }),
        _ => Err(DecodeError::MalformedRequest),
    }
}

impl StartRequest {
    /// The request for the count that was read from a command, if one was
    /// read.
    pub fn from_count(count: Option<u64>) -> (r: Result<StartRequest, DecodeError>)
        ensures
            r == decoded(count),
    {
        match count {
            Some(c) => {
                if c <= u32::MAX as u64 {
                    Ok(StartRequest { count: c as u32 })
                } else {
                    Err(DecodeError::MalformedRequest)
                }
            },
            None => Err(DecodeError::MalformedRequest),
        }
    }

    /// Decodes the body of a command: a JSON object whose member `count` is
    /// a non-negative integer, as in `{"count": 5}`. A body that is no JSON,
    /// has no such member, or has a negative, fractional, non-numeric or too
    /// large count is malformed.
    pub fn from_json(text: &str) -> (r: Result<StartRequest, DecodeError>)
        ensures
            r == decoded(count_member(text@)),
    {
        match parse(text) {
            Some(document) => {
                let count = match member(&document, "count") {
                    Some(found) => found.as_u64(),
                    None => None,
                };
                StartRequest::from_count(count)
            },
            None => Err(DecodeError::MalformedRequest),
        }
    }
}

/// What becomes of a message that arrived on the session.
#[derive(Clone, Copy, Debug, PartialEq, Eq, Structural)]
pub enum Inbound {
    /// The message is on another topic than the device's commands.
    Ignored,
    /// The message asks for a cycle.
    Start(StartRequest),
    /// The message is a command that cannot be decoded. Only this message
    /// is rejected: the next one is taken as any other.
    Rejected(DecodeError),
}

/// What becomes of the message with the body `payload` that arrived on
/// `topic`, for the device `identity`.
pub open spec fn received(
    identity: DeviceIdentityView,
    topic: Seq<char>,
    payload: Seq<char>,
) -> Inbound {
    if topic != identity.config_topic() {
        Inbound::Ignored
    } else {
        match decoded(count_member(payload)) {
            Ok(request) => Inbound::Start(request),
            Err(e) => Inbound::Rejected(e),
        }
    }
}

/// Takes one message from the session: a message on the device's command
/// topic is decoded, any other is ignored.
pub fn receive(identity: &DeviceIdentity, topic: &str, payload: &str) -> (r: Inbound)
    ensures
        r == received(identity@, topic@, payload@),
{
    let commands = identity.config_topic();
    if String::from_str(topic) == commands {
        match StartRequest::from_json(payload) {
            Ok(request) => Inbound::Start(request),
            Err(e) => Inbound::Rejected(e),
        }
    } else {
        Inbound::Ignored
    }
}

} // verus!
