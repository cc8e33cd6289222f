use std::sync::Arc;

use splinter::config::reconnect_strategies::NeverReconnect;
use splinter::daemon::{handle_update, DaemonAction, DaemonMessage, DaemonPoll, DaemonReaction, HandleUpdate, ShardDaemonState};
use splinter::error::{ConnectError, InitShardError, InitShardErrorType};
use splinter::gateway::{CloseFrame, ShardStatus};
use splinter::runner::ShardRunnerState;
use splinter::{ReconnectCause, ShardId, ShardSignal};

type Message = DaemonMessage<u8, u8>;

fn fatal_error(id: ShardId) -> InitShardError {
    let mut runner = ShardRunnerState::new(ShardStatus::Active);
    let cause = ReconnectCause::ConnectionClosed(CloseFrame::new(4000, "x"));
    match runner.attempt_reconnect(id, cause, Some(&NeverReconnect)) {
        ShardSignal::Fatal { error } => error,
        other => panic!("expected a fatal signal, got {other:?}"),
    }
}

#[test]
fn new_daemon_accepts_messages() {
    let daemon: ShardDaemonState<u8> = ShardDaemonState::new();
    assert!(daemon.accepts_messages());
    assert!(!daemon.is_busy());
    assert_eq!(daemon.pending_requests(), 0);
}

#[test]
fn command_is_sent_and_changes_nothing() {
    let mut daemon: ShardDaemonState<u8> = ShardDaemonState::new();
    let action = daemon.on_message(Message::Command { json: "{}".to_owned() });
    assert!(matches!(action, DaemonAction::Send { ref json } if json == "{}"));
    assert!(daemon.accepts_messages());
}

#[test]
fn close_request_makes_daemon_busy() {
    let mut daemon: ShardDaemonState<u8> = ShardDaemonState::new();
    let action = daemon.on_message(Message::Close { frame: CloseFrame::normal(), response: Some(7) });
    assert!(matches!(action, DaemonAction::Close { ref frame, response: Some(7) } if frame.code == 1000));
    assert!(daemon.is_busy());
    assert!(!daemon.accepts_messages());
    assert!(matches!(daemon.on_signal(Some(ShardSignal::Hello)), DaemonReaction::ClearError));
    assert!(daemon.is_busy());
    assert!(matches!(daemon.on_signal(Some(ShardSignal::Connected)), DaemonReaction::Identified { ref responders } if responders.is_empty()));
    assert!(daemon.accepts_messages());
}

#[test]
fn reconfigure_rebuilds_and_keeps_every_request() {
    let mut daemon: ShardDaemonState<u8> = ShardDaemonState::new();
    assert!(matches!(daemon.on_message(Message::Reconfigure { response: Some(1) }), DaemonAction::Rebuild));
    assert!(daemon.is_busy());
    assert!(matches!(daemon.on_message(Message::Reconfigure { response: Some(2) }), DaemonAction::Rebuild));
    assert_eq!(daemon.pending_requests(), 2);
}

#[test]
fn connected_answers_pending_requests_once() {
    let mut daemon: ShardDaemonState<u8> = ShardDaemonState::new();
    daemon.on_message(Message::Reconfigure { response: Some(5) });
    daemon.on_message(Message::Reconfigure { response: Some(6) });
    match daemon.on_signal(Some(ShardSignal::Connected)) {
        DaemonReaction::Identified { responders } => assert_eq!(responders, vec![5, 6]),
        _ => panic!("expected an identification"),
    }
    assert!(!daemon.is_busy());
    assert_eq!(daemon.pending_requests(), 0);
    assert!(matches!(daemon.on_signal(Some(ShardSignal::Connected)), DaemonReaction::Identified { ref responders } if responders.is_empty()));
}

#[test]
fn fatal_answers_pending_requests_with_error() {
    let id = ShardId::new(2, 4);
    let mut daemon: ShardDaemonState<u8> = ShardDaemonState::new();
    daemon.on_message(Message::Reconfigure { response: Some(9) });
    match daemon.on_signal(Some(ShardSignal::Fatal { error: fatal_error(id) })) {
        DaemonReaction::Failed { error, responders } => {
            assert_eq!(responders, vec![9]);
            assert_eq!(error.id(), id);
            assert!(matches!(error.kind(), InitShardErrorType::Gateway(f) if f.code == 4000));
        }
        _ => panic!("expected a failure"),
    }
    assert!(!daemon.is_busy());
    assert_eq!(daemon.pending_requests(), 0);
}

#[test]
fn reconnect_and_no_signal_change_nothing() {
    let mut daemon: ShardDaemonState<u8> = ShardDaemonState::new();
    daemon.on_message(Message::Reconfigure { response: Some(3) });
    let reaction = daemon.on_signal(Some(ShardSignal::Reconnect { cause: ReconnectCause::Manual }));
    assert!(matches!(reaction, DaemonReaction::Reconnecting { cause: ReconnectCause::Manual }));
    assert!(matches!(daemon.on_signal(None), DaemonReaction::Nothing));
    assert!(daemon.is_busy());
    assert_eq!(daemon.pending_requests(), 1);
}

#[test]
fn shutdown_answers_pending_requests_with_termination() {
    let id = ShardId::new(1, 3);
    let mut daemon: ShardDaemonState<u8> = ShardDaemonState::new();
    assert!(daemon.on_shutdown(id).is_none());
    daemon.on_message(Message::Reconfigure { response: Some(4) });
    let (responders, error): (Vec<u8>, Arc<InitShardError>) = daemon.on_shutdown(id).unwrap();
    assert_eq!(responders, vec![4]);
    assert_eq!(error.id(), id);
    match error.kind() {
        InitShardErrorType::Connect(ConnectError::Terminated(t)) => assert_eq!(t.id(), id),
        other => panic!("expected a termination, got {other:?}"),
    }
    assert_eq!(daemon.pending_requests(), 0);
}

#[test]
fn handle_update_ignores_other_shards() {
    let a = ShardId::new(0, 2);
    let b = ShardId::new(1, 2);
    assert_eq!(handle_update(a, b, ShardStatus::Active, ShardStatus::Identifying), HandleUpdate::Ignore);
}

#[test]
fn handle_update_publishes_changed_state() {
    let a = ShardId::new(0, 2);
    assert_eq!(
        handle_update(a, a, ShardStatus::Identifying, ShardStatus::Active),
        HandleUpdate::Refresh { state: Some(ShardStatus::Active) }
    );
    assert_eq!(
        handle_update(a, a, ShardStatus::Active, ShardStatus::Active),
        HandleUpdate::Refresh { state: None }
    );
}

#[test]
fn poll_follows_busy_and_fatal_close() {
    let mut daemon: ShardDaemonState<u8> = ShardDaemonState::new();
    assert_eq!(daemon.poll(false), DaemonPoll { runner: true, messages: true });
    assert_eq!(daemon.poll(true), DaemonPoll { runner: false, messages: true });
    let _ = daemon.on_message(Message::Reconfigure { response: Some(1) });
    assert_eq!(daemon.poll(false), DaemonPoll { runner: true, messages: false });
    let _ = daemon.on_signal(Some(ShardSignal::Hello));
    assert_eq!(daemon.poll(false), DaemonPoll { runner: true, messages: false });
    let _ = daemon.on_signal(Some(ShardSignal::Fatal { error: fatal_error(ShardId::new(0, 1)) }));
    assert_eq!(daemon.poll(true), DaemonPoll { runner: false, messages: true });
    assert_eq!(daemon.pending_requests(), 0);
}

#[test]
fn reconfigure_taken_when_idle_is_alone() {
    let mut daemon: ShardDaemonState<u8> = ShardDaemonState::new();
    let _ = daemon.on_message(Message::Reconfigure { response: Some(3) });
    assert_eq!(daemon.pending_requests(), 1);
    assert!(daemon.is_busy());
    match daemon.on_signal(Some(ShardSignal::Connected)) {
        DaemonReaction::Identified { responders } => assert_eq!(responders, vec![3]),
        _ => panic!("expected an identification"),
    }
}
