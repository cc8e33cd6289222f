//! Strategies that decide whether a disconnected shard reconnects.

use vstd::prelude::*;

use crate::config::ReconnectStrategy;
use crate::range::ShardId;
use crate::signal::ReconnectCause;

verus! {

/// A strategy that allows reconnecting up to a maximum number of attempts:
/// a shard reconnects while the number of failed attempts is below the
/// maximum.
#[derive(Debug)]
pub struct MaxAttempts(usize);

impl View for MaxAttempts {
    type V = usize;

    closed spec fn view(&self) -> usize {
        self.0
    }
}

impl MaxAttempts {
    /// Creates a new `MaxAttempts` strategy with the given limit.
    pub fn new(max: usize) -> (s: MaxAttempts)
        ensures
            s@ == max,
    {
        MaxAttempts(max)
    }
}

impl Default for MaxAttempts {
    /// The strategy of three attempts at most.
    fn default() -> (s: MaxAttempts)
        ensures
            s@ == 3,
    {
        MaxAttempts::new(3)
    }
}

impl ReconnectStrategy for MaxAttempts {
    /// Reconnect exactly while the failed attempts are below the maximum.
    open spec fn answers(&self, id: ShardId, attempts: usize, cause: ReconnectCause, r: bool) -> bool {
        r == (attempts < self@)
    }

    fn should_reconnect(&self, id: ShardId, attempts: usize, cause: &ReconnectCause) -> (r: bool)
        ensures
            r == (attempts < self@),
    {
        attempts < self.0
    }
}

/// `MaxAttempts(max)` allows a reconnection exactly while the failed
/// attempts are below `max`, whatever the shard and the cause: below the
/// limit it always allows, at or above it never does.
pub proof fn law_max_attempts_allows_below_limit(
    strategy: &MaxAttempts,
    id: ShardId,
    attempts: usize,
    cause: ReconnectCause,
    r: bool,
)
    requires
        strategy.answers(id, attempts, cause, r),
    ensures
        attempts < strategy@ ==> r,
        attempts >= strategy@ ==> !r,
{
}

/// A strategy that always allows reconnection, regardless of the number of
/// attempts or the cause.
#[derive(Debug, Clone, Default)]
pub struct AlwaysReconnect;

impl ReconnectStrategy for AlwaysReconnect {
    /// Always reconnect.
    open spec fn answers(&self, id: ShardId, attempts: usize, cause: ReconnectCause, r: bool) -> bool {
        r
    }

    fn should_reconnect(&self, id: ShardId, attempts: usize, cause: &ReconnectCause) -> (r: bool)
        ensures
            r,
    {
        true
    }
}

/// `AlwaysReconnect` allows every reconnection and `NeverReconnect` none,
/// whatever the shard, the failed attempts and the cause.
pub proof fn law_always_and_never(
    always: &AlwaysReconnect,
    never: &NeverReconnect,
    id: ShardId,
    attempts: usize,
    cause: ReconnectCause,
    r: bool,
)
    ensures
        always.answers(id, attempts, cause, r) ==> r,
        never.answers(id, attempts, cause, r) ==> !r,
{
}

/// A strategy that never allows reconnection.
#[derive(Debug, Clone, Default)]
pub struct NeverReconnect;

impl ReconnectStrategy for NeverReconnect {
    /// Never reconnect.
    open spec fn answers(&self, id: ShardId, attempts: usize, cause: ReconnectCause, r: bool) -> bool {
        !r
    }

    fn should_reconnect(&self, id: ShardId, attempts: usize, cause: &ReconnectCause) -> (r: bool)
        ensures
            !r,
    {
        false
    }
}

} // verus!
