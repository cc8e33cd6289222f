use std::sync::Arc;

use splinter::config::reconnect_strategies::NeverReconnect;
use splinter::daemon::{DaemonMessage, ShardDaemonState};
use splinter::error::{ReconfigureShardError, ReconfigureShardErrorType, ShardTerminated};
use splinter::gateway::{CloseFrame, ShardStatus};
use splinter::runner::ShardRunnerState;
use splinter::{ReconnectCause, ShardId, ShardSignal, ShardingRangeError};

#[test]
fn reconfigure_without_reply_is_closed() {
    let id = ShardId::new(0, 1);
    let error = ReconfigureShardError::from_reply(id, None).unwrap_err();
    assert_eq!(error.id(), id);
    assert!(matches!(error.kind(), ReconfigureShardErrorType::Closed));
    assert!(error.into_source().is_none());
}

#[test]
fn reconfigure_success_is_ok() {
    assert!(ReconfigureShardError::from_reply(ShardId::new(0, 1), Some(Ok(()))).is_ok());
}

#[test]
fn reconfigure_failure_carries_init_error() {
    let id = ShardId::new(1, 2);
    let mut runner = ShardRunnerState::new(ShardStatus::Active);
    let cause = ReconnectCause::ConnectionClosed(CloseFrame::new(4013, "invalid intents"));
    let init = match runner.attempt_reconnect(id, cause, Some(&NeverReconnect)) {
        ShardSignal::Fatal { error } => Arc::new(error),
        other => panic!("expected a fatal signal, got {other:?}"),
    };
    let error = ReconfigureShardError::from_reply(id, Some(Err(init.clone()))).unwrap_err();
    assert_eq!(error.id(), id);
    assert!(matches!(error.kind(), ReconfigureShardErrorType::Init(_)));
    let source = error.into_source().unwrap();
    assert!(Arc::ptr_eq(&source, &init));
}

#[test]
fn gateway_error_has_no_source() {
    let id = ShardId::new(0, 1);
    let mut runner = ShardRunnerState::new(ShardStatus::Active);
    let cause = ReconnectCause::ConnectionClosed(CloseFrame::new(4004, "authentication failed"));
    match runner.attempt_reconnect(id, cause, Some(&NeverReconnect)) {
        ShardSignal::Fatal { error } => {
            assert_eq!(error.id(), id);
            assert!(error.into_source().is_none());
        }
        other => panic!("expected a fatal signal, got {other:?}"),
    }
}

#[test]
fn status_predicates() {
    assert!(ShardStatus::FatallyClosed.is_fatally_closed());
    assert!(!ShardStatus::Active.is_fatally_closed());
    assert!(ShardStatus::Disconnected { reconnect_attempts: 2 }.is_disconnected());
    assert!(!ShardStatus::Resuming.is_disconnected());
}

#[test]
fn error_texts() {
    let id = ShardId::new(1, 2);
    assert_eq!(ShardTerminated::new(id).describe(), "shard [1, 2] is terminated");
    assert_eq!(ShardTerminated::new(ShardId::new(0, 16)).describe(), "shard [0, 16] is terminated");

    let closed = ReconfigureShardError::from_reply(id, None).unwrap_err();
    assert_eq!(closed.describe(), "tried to reconfigure closed shard");

    let mut runner = ShardRunnerState::new(ShardStatus::Active);
    let cause = ReconnectCause::ConnectionClosed(CloseFrame::new(4014, "disallowed intents"));
    let init = match runner.attempt_reconnect(id, cause, Some(&NeverReconnect)) {
        ShardSignal::Fatal { error } => Arc::new(error),
        other => panic!("expected a fatal signal, got {other:?}"),
    };
    assert_eq!(init.describe(), "gateway closed with code 4014");
    let failed = ReconfigureShardError::from_reply(id, Some(Err(init))).unwrap_err();
    assert_eq!(failed.describe(), "failed to initialize reconfigured shard");

    let mut daemon: ShardDaemonState<u8> = ShardDaemonState::new();
    let _ = daemon.on_message::<()>(DaemonMessage::Reconfigure { response: Some(7) });
    let (_, terminated) = daemon.on_shutdown(id).unwrap();
    assert_eq!(terminated.describe(), "failed to reconnect to the gateway");
}

#[test]
fn range_error_texts() {
    assert_eq!(ShardingRangeError::TotalIsZero.describe(), "shard total must be greater than zero");
    assert_eq!(ShardingRangeError::FromTooLarge.describe(), "`from` must be less than or equal to `to`");
    assert_eq!(ShardingRangeError::ToTooLarge.describe(), "`to` must be less than `total`");
}
