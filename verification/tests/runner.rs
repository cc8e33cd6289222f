use std::sync::atomic::{AtomicUsize, Ordering};

use splinter::config::reconnect_strategies::{AlwaysReconnect, MaxAttempts, NeverReconnect};
use splinter::error::{ConnectError, InitShardErrorType};
use splinter::event::{extract_event_type, EventKind};
use splinter::gateway::{CloseFrame, ShardStatus};
use splinter::runner::ShardRunnerState;
use splinter::{ReconnectCause, ReconnectStrategy, ShardId, ShardSignal};
use twilight_gateway::EventTypeFlags;

const NONE: Option<&MaxAttempts> = None;

fn closed(code: u16) -> ReconnectCause {
    ReconnectCause::ConnectionClosed(CloseFrame::new(code, "closed"))
}

fn receive_error() -> twilight_gateway::error::ReceiveMessageError {
    twilight_gateway::parse("not a payload".to_owned(), EventTypeFlags::all()).unwrap_err()
}

#[derive(Debug, Default)]
struct CountingStrategy {
    resets: AtomicUsize,
}

impl ReconnectStrategy for CountingStrategy {
    fn should_reconnect(&self, _id: ShardId, _attempts: usize, _cause: &ReconnectCause) -> bool {
        true
    }

    fn reset(&self) {
        self.resets.fetch_add(1, Ordering::SeqCst);
    }
}

#[test]
fn new_state_has_no_attempts() {
    let mut state = ShardRunnerState::new(ShardStatus::Identifying);
    assert_eq!(state.state(), ShardStatus::Identifying);
    assert_eq!(state.reconnect_attempts(), 0);
    assert!(!state.is_fatally_closed());
}

#[test]
fn occasional_cause_changes_nothing() {
    let mut state = ShardRunnerState::new(ShardStatus::Active);
    let id = ShardId::new(0, 1);
    let signal = state.attempt_reconnect(id, ReconnectCause::Manual, Some(&NeverReconnect));
    assert!(matches!(signal, ShardSignal::Reconnect { cause: ReconnectCause::Manual }));
    assert_eq!(state.reconnect_attempts(), 0);
    assert_eq!(state.state(), ShardStatus::Active);
}

#[test]
fn max_attempts_gives_up_after_limit() {
    let mut state = ShardRunnerState::new(ShardStatus::Active);
    let id = ShardId::new(1, 2);
    let strategy = MaxAttempts::new(2);
    for expected in 1..=2 {
        let signal = state.attempt_reconnect(id, closed(4000), Some(&strategy));
        assert!(matches!(signal, ShardSignal::Reconnect { cause: ReconnectCause::ConnectionClosed(ref f) } if f.code == 4000));
        assert_eq!(state.reconnect_attempts(), expected);
        assert!(!state.is_fatally_closed());
    }
    let signal = state.attempt_reconnect(id, closed(4000), Some(&strategy));
    match signal {
        ShardSignal::Fatal { error } => {
            assert_eq!(error.id(), id);
            assert!(matches!(error.kind(), InitShardErrorType::Gateway(f) if f.code == 4000));
        }
        other => panic!("expected a fatal signal, got {other:?}"),
    }
    assert!(state.is_fatally_closed());
    assert_eq!(state.state(), ShardStatus::FatallyClosed);
    assert_eq!(state.reconnect_attempts(), 2);
}

#[test]
fn fatal_close_code_is_fatal_whatever_the_strategy() {
    let mut state = ShardRunnerState::new(ShardStatus::Active);
    let signal = state.attempt_reconnect(ShardId::new(0, 1), closed(4004), Some(&AlwaysReconnect));
    assert!(matches!(signal, ShardSignal::Fatal { .. }));
    assert!(state.is_fatally_closed());
}

#[test]
fn never_reconnect_is_fatal_on_first_failure() {
    let mut state = ShardRunnerState::new(ShardStatus::Active);
    let signal = state.attempt_reconnect(ShardId::new(0, 1), closed(4008), Some(&NeverReconnect));
    assert!(matches!(signal, ShardSignal::Fatal { .. }));
    assert_eq!(state.reconnect_attempts(), 0);
}

#[test]
fn without_strategy_failures_are_counted() {
    let mut state = ShardRunnerState::new(ShardStatus::Active);
    for expected in 1..=5 {
        let signal = state.attempt_reconnect(ShardId::new(0, 1), closed(1000), NONE);
        assert!(matches!(signal, ShardSignal::Reconnect { .. }));
        assert_eq!(state.reconnect_attempts(), expected);
    }
    state.reset_reconnect_attempts();
    assert_eq!(state.reconnect_attempts(), 0);
}

#[test]
fn settle_reconnect_with_verdicts() {
    let id = ShardId::new(0, 1);
    let mut state = ShardRunnerState::new(ShardStatus::Active);
    assert!(matches!(state.settle_reconnect(id, closed(4000), Some(true)), ShardSignal::Reconnect { .. }));
    assert_eq!(state.reconnect_attempts(), 1);
    assert!(matches!(state.settle_reconnect(id, closed(4000), None), ShardSignal::Reconnect { .. }));
    assert_eq!(state.reconnect_attempts(), 2);
    assert!(matches!(state.settle_reconnect(id, closed(4000), Some(false)), ShardSignal::Fatal { .. }));
    assert_eq!(state.reconnect_attempts(), 2);
}

#[test]
fn observe_takes_over_status() {
    let mut state = ShardRunnerState::new(ShardStatus::Active);
    let _ = state.attempt_reconnect(ShardId::new(0, 1), closed(4004), NONE);
    assert!(state.is_fatally_closed());
    state.observe(ShardStatus::Disconnected { reconnect_attempts: 0 });
    assert!(!state.is_fatally_closed());
}

#[test]
fn close_cause_classification() {
    let none = ShardRunnerState::close_cause(None, true);
    assert!(matches!(none, ReconnectCause::ConnectionClosed(ref f) if f.code == 4000 && f.reason == "unknown reason"));
    let timed_out = ShardRunnerState::close_cause(Some(CloseFrame::new(4009, "x")), false);
    assert!(matches!(timed_out, ReconnectCause::SessionInvalidated));
    let zombie = ShardRunnerState::close_cause(Some(CloseFrame::new(1006, "x")), true);
    assert!(matches!(zombie, ReconnectCause::HeartbeatTimeout));
    let abnormal = ShardRunnerState::close_cause(Some(CloseFrame::new(1006, "x")), false);
    assert!(matches!(abnormal, ReconnectCause::ConnectionClosed(ref f) if f.code == 1006));
    let bad_token = ShardRunnerState::close_cause(Some(CloseFrame::new(4004, "x")), true);
    assert!(matches!(bad_token, ReconnectCause::ConnectionClosed(ref f) if f.code == 4004));
}

#[test]
fn on_close_session_timeout_does_not_count() {
    let mut state = ShardRunnerState::new(ShardStatus::Active);
    let signal = state.on_close(ShardId::new(0, 1), Some(CloseFrame::new(4009, "x")), true, Some(&NeverReconnect));
    assert!(matches!(signal, ShardSignal::Reconnect { cause: ReconnectCause::SessionInvalidated }));
    assert_eq!(state.reconnect_attempts(), 0);
}

#[test]
fn on_close_without_frame_counts_failure() {
    let mut state = ShardRunnerState::new(ShardStatus::Active);
    let signal = state.on_close(ShardId::new(0, 1), None, false, Some(&AlwaysReconnect));
    assert!(matches!(signal, ShardSignal::Reconnect { cause: ReconnectCause::ConnectionClosed(_) }));
    assert_eq!(state.reconnect_attempts(), 1);
}

#[test]
fn deserializing_error_is_receive_error() {
    let mut state = ShardRunnerState::new(ShardStatus::Active);
    let signal = state.on_receive_error(ShardId::new(0, 1), receive_error(), Some(&NeverReconnect));
    assert!(matches!(signal, ShardSignal::ReceiveError { .. }));
    assert_eq!(state.reconnect_attempts(), 0);
    assert!(!state.is_fatally_closed());
}

#[test]
fn text_parse_error_is_receive_error() {
    let mut state = ShardRunnerState::new(ShardStatus::Active);
    let r = state.on_text::<MaxAttempts, u32>(extract_event_type(r#"{"t":"READY","op":0}"#), Err(receive_error()), None);
    assert!(matches!(r, Some((Some(ShardSignal::ReceiveError { .. }), None))));
}

#[test]
fn ready_connects_and_resets_strategy() {
    let mut state = ShardRunnerState::new(ShardStatus::Active);
    let strategy = CountingStrategy::default();
    let kind = extract_event_type(r#"{"t":"READY","s":1,"op":0,"d":{}}"#);
    let r = state.on_text(kind, Ok(Some(7u32)), Some(&strategy));
    assert!(matches!(r, Some((Some(ShardSignal::Connected), Some(7)))));
    assert_eq!(strategy.resets.load(Ordering::SeqCst), 1);
    let r = state.on_text(Some(EventKind::Resumed), Ok(None::<u32>), Some(&strategy));
    assert!(matches!(r, Some((Some(ShardSignal::Connected), None))));
    assert_eq!(strategy.resets.load(Ordering::SeqCst), 2);
}

#[test]
fn hello_kind_is_signalled() {
    let mut state = ShardRunnerState::new(ShardStatus::Identifying);
    let r = state.on_text(Some(EventKind::GatewayHello), Ok(Some(1u8)), NONE);
    assert!(matches!(r, Some((Some(ShardSignal::Hello), Some(1)))));
}

#[test]
fn other_events_pass_through_or_are_skipped() {
    let mut state = ShardRunnerState::new(ShardStatus::Active);
    let kind = extract_event_type(r#"{"t":"MESSAGE_CREATE","s":2,"op":0,"d":{}}"#);
    let r = state.on_text(kind, Ok(Some("event")), NONE);
    assert!(matches!(r, Some((None, Some("event")))));
    let r = state.on_text(None, Ok(None::<u8>), NONE);
    assert!(r.is_none());
}

#[test]
fn network_error_kind_maps_to_connect() {
    let mut state = ShardRunnerState::new(ShardStatus::Active);
    let signal = state.attempt_reconnect(ShardId::new(0, 1), ReconnectCause::NetworkError(receive_error()), Some(&NeverReconnect));
    match signal {
        ShardSignal::Fatal { error } => {
            assert!(matches!(error.into_source(), Some(ConnectError::Network(_))));
        }
        other => panic!("expected a fatal signal, got {other:?}"),
    }
}

#[test]
fn classified_reconnect_error_counts_failure() {
    let mut state = ShardRunnerState::new(ShardStatus::Active);
    let signal = state.on_classified_receive_error(ShardId::new(0, 1), receive_error(), true, Some(&AlwaysReconnect));
    assert!(matches!(signal, ShardSignal::Reconnect { cause: ReconnectCause::NetworkError(_) }));
    assert_eq!(state.reconnect_attempts(), 1);
    let signal = state.on_classified_receive_error(ShardId::new(0, 1), receive_error(), false, Some(&AlwaysReconnect));
    assert!(matches!(signal, ShardSignal::ReceiveError { .. }));
    assert_eq!(state.reconnect_attempts(), 1);
}

#[test]
fn raw_ready_message_connects_with_its_event() {
    let mut state = ShardRunnerState::new(ShardStatus::Identifying);
    let strategy = CountingStrategy::default();
    let json = r#"{"t":"RESUMED","s":5,"op":0,"d":{}}"#.to_owned();
    let r = state.on_text_message(json, EventTypeFlags::all().bits(), Some(&strategy));
    assert!(matches!(r, Some((Some(ShardSignal::Connected), Some(twilight_gateway::Event::Resumed)))));
    assert_eq!(strategy.resets.load(Ordering::SeqCst), 1);
}

#[test]
fn raw_hello_message_says_hello() {
    let mut state = ShardRunnerState::new(ShardStatus::Identifying);
    let json = r#"{"t":null,"s":null,"op":10,"d":{"heartbeat_interval":41250}}"#.to_owned();
    let r = state.on_text_message(json, EventTypeFlags::all().bits(), NONE);
    assert!(matches!(
        r,
        Some((Some(ShardSignal::Hello), Some(twilight_gateway::Event::GatewayHello(hello))))
            if hello.heartbeat_interval == 41250
    ));
    assert_eq!(state.reconnect_attempts(), 0);
}

#[test]
fn raw_garbage_message_is_receive_error() {
    let mut state = ShardRunnerState::new(ShardStatus::Active);
    let r = state.on_text_message("garbage".to_owned(), EventTypeFlags::all().bits(), NONE);
    assert!(matches!(r, Some((Some(ShardSignal::ReceiveError { .. }), None))));
}

#[test]
fn raw_filtered_message_is_skipped() {
    let mut state = ShardRunnerState::new(ShardStatus::Active);
    let json = r#"{"t":"TYPING_START","s":5,"op":0,"d":{}}"#.to_owned();
    let r = state.on_text_message(json, EventTypeFlags::empty().bits(), NONE);
    assert!(r.is_none());
}

#[test]
fn fatally_closed_runner_stays_fatally_closed() {
    let mut state = ShardRunnerState::new(ShardStatus::Active);
    let id = ShardId::new(0, 1);
    let _ = state.attempt_reconnect(id, closed(4004), NONE);
    assert!(state.is_fatally_closed());
    let _ = state.attempt_reconnect(id, closed(4000), Some(&AlwaysReconnect));
    let _ = state.attempt_reconnect(id, ReconnectCause::HeartbeatTimeout, Some(&AlwaysReconnect));
    assert!(state.is_fatally_closed());
}

#[test]
fn connected_resets_failed_attempts() {
    let mut state = ShardRunnerState::new(ShardStatus::Active);
    let id = ShardId::new(0, 1);
    let strategy = MaxAttempts::new(1);
    assert!(matches!(state.attempt_reconnect(id, closed(4000), Some(&strategy)), ShardSignal::Reconnect { .. }));
    assert_eq!(state.reconnect_attempts(), 1);
    let json = r#"{"t":"READY","s":1,"op":0,"d":{}}"#.to_owned();
    let _ = state.on_text_message(json, EventTypeFlags::empty().bits(), Some(&strategy));
    assert_eq!(state.reconnect_attempts(), 0);
    assert!(matches!(state.attempt_reconnect(id, closed(4000), Some(&strategy)), ShardSignal::Reconnect { .. }));
    assert!(matches!(state.attempt_reconnect(id, closed(4000), Some(&strategy)), ShardSignal::Fatal { .. }));
}

#[test]
fn other_events_keep_failed_attempts() {
    let mut state = ShardRunnerState::new(ShardStatus::Active);
    let _ = state.attempt_reconnect(ShardId::new(0, 1), closed(4000), NONE);
    let kind = extract_event_type(r#"{"t":"MESSAGE_CREATE","s":2,"op":0,"d":{}}"#);
    let _ = state.on_text(kind, Ok(Some(1u8)), NONE);
    assert_eq!(state.reconnect_attempts(), 1);
}

#[test]
fn published_status_is_live_until_fatally_closed() {
    let live = ShardStatus::Disconnected { reconnect_attempts: 3 };
    let state = ShardRunnerState::new(ShardStatus::Active);
    assert_eq!(state.published_status(live), live);
    let mut state = ShardRunnerState::new(ShardStatus::Active);
    let _ = state.attempt_reconnect(ShardId::new(0, 1), closed(4004), NONE);
    assert!(state.is_fatally_closed());
    assert_eq!(state.published_status(live), ShardStatus::FatallyClosed);
}
