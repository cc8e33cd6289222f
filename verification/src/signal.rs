//! Signals of a shard runner and the causes of its reconnections.

use twilight_gateway::error::ReceiveMessageError;
use vstd::prelude::*;
use vstd::string::StringExecFns;

use crate::error::InitShardError;
use crate::gateway::{reconnect_kind, CloseFrame};

verus! {

/// The text that `{:?}` formatting gives a string: quoted, with special
/// characters escaped. A function of the string alone.
pub uninterp spec fn debug_text(s: Seq<char>) -> Seq<char>;

/// Formats a string with `{:?}` (`<str as Debug>::fmt`), as the name
/// `debug_text` states.
#[verifier::external_body]
fn debug_quoted(s: &str) -> (r: String)
    ensures
        r@ == debug_text(s@),
{
    format!("{:?}", s)
}

/// Whether a receive error carries a source error
/// (`std::error::Error::source` returns `Some`). A function of the error
/// alone: the source is a field that the error was built with.
pub uninterp spec fn has_source(error: ReceiveMessageError) -> bool;

/// Formats the source of a receive error (`std::error::Error::source`) with
/// `Display`. The contract says only when there is a text: exactly when the
/// error has a source. What the text is stays unsaid: for an I/O failure it
/// is the operating system's message for the error code, which depends on
/// the machine and its locale.
#[verifier::external_body]
fn error_source_text(error: &ReceiveMessageError) -> (r: Option<String>)
    ensures
        r is Some <==> has_source(*error),
{
    match std::error::Error::source(error) {
        Some(source) => Some(source.to_string()),
        None => None,
    }
}

/// The `Display` text of a receive error. A function of the error alone.
pub uninterp spec fn display_text(error: ReceiveMessageError) -> Seq<char>;

/// Formats a receive error with `Display` (`to_string`), as the name
/// `display_text` states. Its source writes a fixed text for each kind of
/// error: "failed to reconnect to the gateway" for
/// `ReceiveMessageErrorType::Reconnect` (which the name `reconnect_kind`
/// tells), and texts that differ from it for the other kinds ("gateway
/// event could not be deserialized: event=" and the event, "binary message
/// could not be decompressed").
#[verifier::external_body]
pub(crate) fn error_display_text(error: &ReceiveMessageError) -> (r: String)
    ensures
        r@ == display_text(*error),
        reconnect_kind(*error) <==> r@ == "failed to reconnect to the gateway"@,
{
    error.to_string()
}

/// The text of a reconnect cause, as logs show it: the close code (and the
/// quoted reason, if any) of a closed connection, the error's own text for a
/// network error without a source, and a fixed phrase for each occasional
/// cause. `code` is the decimal text of a close code.
pub open spec fn cause_text(cause: ReconnectCause, code: Seq<char>) -> Seq<char> {
    match cause {
        ReconnectCause::ConnectionClosed(frame) =>
            "gateway closed with code "@ + code + if frame.reason@.len() == 0 {
                Seq::<char>::empty()
            } else {
                " ("@ + debug_text(frame.reason@) + ")"@
            },
        ReconnectCause::NetworkError(error) => display_text(error),
        ReconnectCause::Manual => "manual reconnection requested"@,
        ReconnectCause::SessionInvalidated => "session invalidated"@,
        ReconnectCause::HeartbeatTimeout => "heartbeat acknowledgment timeout"@,
    }
}

/// The texts of reconnect causes: a fixed phrase for each occasional cause;
/// for a closed connection, "gateway closed with code " and the code, then
/// the quoted reason in brackets only where there is a reason; for a
/// network error without a source, the error's own text.
pub proof fn law_cause_texts(frame: CloseFrame, error: ReceiveMessageError, code: Seq<char>)
    ensures
        cause_text(ReconnectCause::Manual, code) == "manual reconnection requested"@,
        cause_text(ReconnectCause::SessionInvalidated, code) == "session invalidated"@,
        cause_text(ReconnectCause::HeartbeatTimeout, code) == "heartbeat acknowledgment timeout"@,
        frame.reason@.len() == 0 ==> cause_text(ReconnectCause::ConnectionClosed(frame), code)
            == "gateway closed with code "@ + code,
        frame.reason@.len() > 0 ==> cause_text(ReconnectCause::ConnectionClosed(frame), code)
            == "gateway closed with code "@ + code + " ("@ + debug_text(frame.reason@) + ")"@,
        cause_text(ReconnectCause::NetworkError(error), code) == display_text(error),
{
    assert(("gateway closed with code "@ + code) + Seq::<char>::empty() =~= "gateway closed with code "@ + code);
    assert(("gateway closed with code "@ + code) + (" ("@ + debug_text(frame.reason@) + ")"@)
        =~= "gateway closed with code "@ + code + " ("@ + debug_text(frame.reason@) + ")"@);
}

/// The cause of a [`ShardSignal::Reconnect`].
#[derive(Debug)]
pub enum ReconnectCause {
    /// The gateway sent a close frame.
    ConnectionClosed(CloseFrame),
    /// A reconnection error occurred.
    NetworkError(ReceiveMessageError),
    /// Manual reconnection was requested.
    Manual,
    /// Session invalidated, need to re-identify.
    SessionInvalidated,
    /// Heartbeat acknowledgment was not received in time.
    HeartbeatTimeout,
}

impl ReconnectCause {
    /// Whether the cause is occasional: a manual request, a session
    /// invalidation or a heartbeat timeout, as opposed to a failure of the
    /// connection itself.
    pub open spec fn occasional(&self) -> bool {
        self is Manual || self is SessionInvalidated || self is HeartbeatTimeout
    }

    /// The text of the cause, as `cause_text` states; the close code is
    /// written in decimal by `u16`'s `Display`. A network error with a
    /// source is described by the source's own text, which the contract
    /// leaves open (see `error_source_text`).
    pub fn describe(&self) -> (text: String)
        ensures
            match self {
                ReconnectCause::ConnectionClosed(frame) => exists|code: String|
                    vstd::string::to_string_from_display_ensures::<u16>(&frame.code, code)
                    && text@ == cause_text(*self, code@),
                ReconnectCause::NetworkError(error) => !has_source(*error)
                    ==> text@ == cause_text(*self, Seq::<char>::empty()),
                _ => text@ == cause_text(*self, Seq::<char>::empty()),
            },
    {
        match self {
            ReconnectCause::ConnectionClosed(frame) => {
                let mut text = String::from_str("gateway closed with code ");
                let code = frame.code.to_string();
                text.append(code.as_str());
                if !frame.reason.as_str().is_empty() {
                    text.append(" (");
                    let quoted = debug_quoted(frame.reason.as_str());
                    text.append(quoted.as_str());
                    text.append(")");
                }
                assert(text@ == cause_text(*self, code@));
                text
            },
            ReconnectCause::NetworkError(error) => match error_source_text(error) {
                Some(t) => t,
                None => error_display_text(error),
            },
            ReconnectCause::Manual => String::from_str("manual reconnection requested"),
            ReconnectCause::SessionInvalidated => String::from_str("session invalidated"),
            ReconnectCause::HeartbeatTimeout => String::from_str("heartbeat acknowledgment timeout"),
        }
    }

    /// Checks if the reconnection was triggered by an occasional event:
    /// a session invalidation, a heartbeat timeout or a manual request.
    pub fn is_occasional(&self) -> (r: bool)
        ensures
            r == self.occasional(),
    {
        match self {
            ReconnectCause::Manual | ReconnectCause::SessionInvalidated | ReconnectCause::HeartbeatTimeout => true,
            _ => false,
        }
    }
}

/// A signal from the shard runner indicating an event that requires a
/// change in its control flow.
#[derive(Debug)]
pub enum ShardSignal {
    /// The shard has received `Hello` from Discord.
    Hello,
    /// The shard has successfully connected and finished the gateway handshake.
    Connected,
    /// A fatal error occurred that cannot be recovered from.
    Fatal {
        /// The initialization error that caused the failure.
        error: InitShardError,
    },
    /// The shard needs to reconnect to the gateway.
    Reconnect {
        /// The reason for the disconnection.
        cause: ReconnectCause,
    },
    /// An error occurred while deserializing a gateway event or processing a
    /// raw websocket message.
    ReceiveError {
        /// The underlying receive message error.
        error: ReceiveMessageError,
    },
}

} // verus!
