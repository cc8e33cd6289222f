//! Plain-value models of what the runner reads from the gateway connection,
//! and the gateway's receive error, carried through as an opaque value.

use vstd::prelude::*;
use vstd::string::StringExecFns;

use crate::signal::error_display_text;

verus! {

/// The gateway's error for a failed receive, carried through unread.
#[verifier::external_type_specification]
#[verifier::external_body]
pub struct ExReceiveMessageError(twilight_gateway::error::ReceiveMessageError);

/// Whether the kind of a receive error (`ReceiveMessageError::kind`) is
/// `ReceiveMessageErrorType::Reconnect`: the shard failed to reconnect to the
/// gateway. A function of the error alone.
pub uninterp spec fn reconnect_kind(error: twilight_gateway::error::ReceiveMessageError) -> bool;

/// Whether a receive error is of the kind that twilight reports when the
/// shard failed to reconnect to the gateway: told by its `Display` text,
/// which twilight writes as "failed to reconnect to the gateway" for that
/// kind alone.
pub(crate) fn is_reconnect_error(error: &twilight_gateway::error::ReceiveMessageError) -> (r: bool)
    ensures
        r == reconnect_kind(*error),
{
    let text = error_display_text(error);
    let reconnect = String::from_str("failed to reconnect to the gateway");
    text == reconnect
}

/// A websocket close frame: the close code and its textual reason.
#[derive(Debug, Clone, PartialEq, Eq)]
pub struct CloseFrame {
    /// Reason for the close.
    pub code: u16,
    /// Textual representation of the reason the connection is being closed.
    pub reason: String,
}

impl CloseFrame {
    /// Builds a close frame from a code and a reason.
    pub fn new(code: u16, reason: &str) -> (frame: CloseFrame)
        ensures
            frame.code == code,
            frame.reason@ == reason@,
    {
        CloseFrame { code, reason: reason.to_owned() }
    }

    /// The close frame of a full session disconnect: code 1000,
    /// "closing connection".
    pub fn normal() -> (frame: CloseFrame)
        ensures
            frame.code == 1000,
            frame.reason@ == "closing connection"@,
    {
        CloseFrame::new(1000, "closing connection")
    }

    /// The close frame that stands in for a close message without a frame:
    /// code 4000, "unknown reason".
    pub fn unknown_reason() -> (frame: CloseFrame)
        ensures
            frame.code == 4000,
            frame.reason@ == "unknown reason"@,
    {
        CloseFrame::new(4000, "unknown reason")
    }
}

/// The state of a gateway shard connection.
#[derive(Debug, Clone, Copy, PartialEq, Eq, Structural)]
pub enum ShardStatus {
    /// Connected to the gateway with an active session.
    Active,
    /// Disconnected from the gateway but may reconnect in the future.
    Disconnected {
        /// Number of reconnection attempts that have been made.
        reconnect_attempts: u8,
    },
    /// Fatally closed: it will not reconnect.
    FatallyClosed,
    /// Waiting to establish or resume a session.
    Identifying,
    /// Replaying missed dispatch events.
    Resuming,
}

impl ShardStatus {
    /// Whether the shard is fatally closed.
    pub fn is_fatally_closed(&self) -> (r: bool)
        ensures
            r <==> *self == ShardStatus::FatallyClosed,
    {
        match self {
            ShardStatus::FatallyClosed => true,
            _ => false,
        }
    }

    /// Whether the shard is disconnected.
    pub fn is_disconnected(&self) -> (r: bool)
        ensures
            r <==> *self is Disconnected,
    {
        match self {
            ShardStatus::Disconnected { .. } => true,
            _ => false,
        }
    }
}

} // verus!
