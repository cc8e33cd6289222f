//! Splinter: orchestration of Discord gateway shards.
//!
//! This crate holds the decision logic of the shard manager, the shard
//! daemons and the shard runners, as verified state machines over plain
//! values: sharding ranges and shard identifiers, reconnect strategies,
//! the classification of gateway close frames and dispatch events, the
//! reconnect bookkeeping of a runner and the reactions of a daemon.

pub mod close_code;
pub mod config;
pub mod daemon;
pub mod daemon_loop;
pub mod error;
pub mod event;
pub mod gateway;
pub mod range;
pub mod runner;
pub mod signal;

pub use self::config::ReconnectStrategy;
pub use self::range::{ShardId, ShardingRange, ShardingRangeError};
pub use self::signal::{ReconnectCause, ShardSignal};
pub mod registry;
