//! Reconnect strategies of shard runners.

use vstd::prelude::*;

use crate::range::ShardId;
use crate::signal::ReconnectCause;

/// Reconnect strategies provided by the library.
pub mod reconnect_strategies;

verus! {

/// Defines a strategy for handling shard reconnection attempts.
///
/// Implementors decide whether a disconnected shard should try to reconnect,
/// from the shard, the number of failed attempts so far and the cause.
pub trait ReconnectStrategy: std::fmt::Debug + Send + Sync {
    /// Whether `r` is an answer that the strategy may give to "should shard
    /// `id` reconnect after `attempts` failed attempts, for `cause`?". A
    /// relation rather than a function, so that a strategy with internal
    /// state may answer the same question differently over time. Unless a
    /// strategy says more, either answer may come.
    open spec fn answers(&self, id: ShardId, attempts: usize, cause: ReconnectCause, r: bool) -> bool {
        true
    }

    /// Determines whether a shard should attempt to reconnect.
    fn should_reconnect(&self, id: ShardId, attempts: usize, cause: &ReconnectCause) -> (r: bool)
        ensures
            self.answers(id, attempts, *cause, r),
    ;

    /// Resets any internal state of the strategy.
    ///
    /// Called by the runner when a shard connects and completes its
    /// handshake.
    fn reset(&self) {
    }
}

} // verus!
