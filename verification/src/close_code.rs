//! Gateway close event codes and which of them are fatal, as twilight-model's
//! `CloseCode` tells them.

use twilight_model::gateway::CloseCode;
use vstd::prelude::*;

use crate::gateway::CloseFrame;

verus! {

/// A gateway close event code of twilight-model, carried through unread.
#[verifier::external_type_specification]
#[verifier::external_body]
pub struct ExCloseCode(CloseCode);

/// Whether a numeric code is a gateway close event code: 4000 to 4014, but
/// 4006.
pub open spec fn known_close_code(code: u16) -> bool {
    4000 <= code <= 4014 && code != 4006
}

/// Whether a close code is fatal: a known close code after which the same
/// shard configuration would fail again (4004, a bad token; 4010 to 4014,
/// an invalid shard, sharding required, an invalid API version, invalid or
/// disallowed intents). Unknown codes are not fatal.
pub open spec fn fatal_code(code: u16) -> bool {
    code == 4004 || (4010 <= code <= 4014)
}

/// The number of a twilight close code (its `u16` representation). A
/// function of the close code alone.
pub uninterp spec fn close_code_number(code: CloseCode) -> u16;

/// Converts a numeric code with twilight-model's `CloseCode::try_from(u16)`.
/// Its source maps each of the codes 4000 to 4014 but 4006 to the variant
/// whose representation it is, and refuses every other number.
#[verifier::external_body]
fn close_code_from(code: u16) -> (r: Option<CloseCode>)
    ensures
        r is Some <==> known_close_code(code),
        r matches Some(c) ==> close_code_number(c) == code,
{
    CloseCode::try_from(code).ok()
}

/// Whether a close code allows reconnecting, with twilight-model's
/// `CloseCode::can_reconnect`. Its source allows every code but 4004 and
/// 4010 to 4014.
#[verifier::external_body]
fn close_code_can_reconnect(code: CloseCode) -> (r: bool)
    ensures
        r <==> !fatal_code(close_code_number(code)),
{
    code.can_reconnect()
}

/// Whether a close code is twilight-model's `CloseCode::SessionTimedOut`,
/// which its source represents by 4009.
#[verifier::external_body]
fn close_code_is_session_timeout(code: CloseCode) -> (r: bool)
    ensures
        r <==> close_code_number(code) == 4009,
{
    match code {
        CloseCode::SessionTimedOut => true,
        _ => false,
    }
}

/// Whether a numeric code is the session timeout close code (4009).
pub fn is_session_timeout(code: u16) -> (r: bool)
    ensures
        r <==> code == 4009,
{
    match close_code_from(code) {
        Some(c) => close_code_is_session_timeout(c),
        None => false,
    }
}

/// Whether the close frame carries a fatal close code, one after which the
/// same shard configuration would fail again (bad token, invalid shard,
/// sharding required, invalid API version, invalid or disallowed intents).
pub fn has_fatal_error_code(frame: &CloseFrame) -> (r: bool)
    ensures
        r == fatal_code(frame.code),
{
    match close_code_from(frame.code) {
        Some(code) => !close_code_can_reconnect(code),
        None => false,
    }
}

} // verus!
