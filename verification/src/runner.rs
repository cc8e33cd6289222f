//! The reconnect bookkeeping of a shard runner: what it decides when the
//! gateway connection closes, fails or delivers a message.

use twilight_gateway::error::ReceiveMessageError;
use twilight_gateway::Event;
use vstd::prelude::*;

use crate::close_code::{fatal_code, has_fatal_error_code, is_session_timeout};
use crate::config::reconnect_strategies::MaxAttempts;
use crate::config::ReconnectStrategy;
use crate::error::{ConnectError, InitShardError, InitShardErrorType};
use crate::event::{extract_event_type, extracted_kind, gateway_parsed, parse_event, payload_is_hello, payload_named, EventKind};
use crate::gateway::{is_reconnect_error, reconnect_kind, CloseFrame, ShardStatus};
use crate::range::ShardId;
use crate::signal::{ReconnectCause, ShardSignal};

verus! {

/// The number of failed attempts after one more failure: one more, or one
/// again where the count is at its largest value.
pub open spec fn next_attempts(attempts: usize) -> usize {
    if attempts < usize::MAX {
        (attempts + 1) as usize
    } else {
        1
    }
}

/// Whether the cause is a close frame with a fatal close code.
pub open spec fn closes_fatally(reason: ReconnectCause) -> bool {
    reason matches ReconnectCause::ConnectionClosed(frame) && fatal_code(frame.code)
}

/// The error kind of a fatal, non-occasional cause: a close frame becomes a
/// `Gateway` error, a network error a `Connect` error.
pub open spec fn fatal_kind(reason: ReconnectCause) -> InitShardErrorType {
    match reason {
        ReconnectCause::ConnectionClosed(frame) => InitShardErrorType::Gateway(frame),
        ReconnectCause::NetworkError(error) => InitShardErrorType::Connect(ConnectError::Network(error)),
        _ => arbitrary(),
    }
}

/// One reconnect decision of a runner in state `old` (status, failed
/// attempts) for shard `id`, where `verdict` is the strategy's answer to
/// "should it reconnect?" (`None` without a strategy):
/// - an occasional cause is a plain reconnect, and nothing changes;
/// - a refusal of the strategy or a fatal close code is fatal: the status
///   becomes `FatallyClosed`, the count stays, and the signal carries the
///   error of the cause;
/// - anything else is a reconnect that counts one more failed attempt.
pub open spec fn reconnect_transition(
    old: (ShardStatus, usize),
    new: (ShardStatus, usize),
    id: ShardId,
    reason: ReconnectCause,
    verdict: Option<bool>,
    signal: ShardSignal,
) -> bool {
    if reason.occasional() {
        new == old && signal == (ShardSignal::Reconnect { cause: reason })
    } else if verdict == Some(false) || closes_fatally(reason) {
        &&& new == (ShardStatus::FatallyClosed, old.1)
        &&& signal matches ShardSignal::Fatal { error } && error@ == (id, fatal_kind(reason))
    } else {
        new == (old.0, next_attempts(old.1)) && signal == (ShardSignal::Reconnect { cause: reason })
    }
}

/// Whether `verdict` is what the runner got from `strategy` when it asked
/// whether shard `id` should reconnect after `attempts` failed attempts for
/// `reason`: none without a strategy, otherwise an answer the strategy may
/// give to exactly that question.
pub open spec fn strategy_verdict<S: ReconnectStrategy + ?Sized>(
    strategy: Option<&S>,
    id: ShardId,
    attempts: usize,
    reason: ReconnectCause,
    verdict: Option<bool>,
) -> bool {
    match strategy {
        None => verdict is None,
        Some(s) => verdict matches Some(v) && s.answers(id, attempts, reason, v),
    }
}

/// One reconnect decision of a runner that asks `strategy`: for a
/// non-occasional cause, the verdict is the strategy's answer for the
/// runner's shard, its failed attempts so far and the cause.
pub open spec fn asked_transition<S: ReconnectStrategy + ?Sized>(
    old: (ShardStatus, usize),
    new: (ShardStatus, usize),
    id: ShardId,
    reason: ReconnectCause,
    strategy: Option<&S>,
    signal: ShardSignal,
) -> bool {
    exists|verdict: Option<bool>|
        (!reason.occasional() ==> strategy_verdict(strategy, id, old.1, reason, verdict))
        && reconnect_transition(old, new, id, reason, verdict, signal)
}

/// The cause that a close message stands for, from its frame (a missing
/// frame counts as code 4000, "unknown reason") and whether the shard had a
/// session: a session timeout (4009) invalidates the session; code 1006 with a
/// session is a heartbeat timeout (the connection failed or went zombie);
/// any other frame is a closed connection.
pub open spec fn close_cause_of(frame: Option<CloseFrame>, has_session: bool, cause: ReconnectCause) -> bool {
    match frame {
        Some(f) => if f.code == 4009 {
            cause is SessionInvalidated
        } else if f.code == 1006 && has_session {
            cause is HeartbeatTimeout
        } else {
            cause == ReconnectCause::ConnectionClosed(f)
        },
        None => cause matches ReconnectCause::ConnectionClosed(f) && f.code == 4000 && f.reason@ == "unknown reason"@,
    }
}

/// A reconnect decision never takes a runner out of `FatallyClosed`: only
/// a new shard (an observed status) does.
pub proof fn law_fatal_status_is_kept(
    old: (ShardStatus, usize),
    new: (ShardStatus, usize),
    id: ShardId,
    reason: ReconnectCause,
    verdict: Option<bool>,
    signal: ShardSignal,
)
    requires
        reconnect_transition(old, new, id, reason, verdict, signal),
        old.0 == ShardStatus::FatallyClosed,
    ensures
        new.0 == ShardStatus::FatallyClosed,
{
}

/// Whether a cause is a failure of the connection that a strategy may
/// retry: neither occasional nor a close with a fatal code.
pub open spec fn retryable_failure(reason: ReconnectCause) -> bool {
    !reason.occasional() && !closes_fatally(reason)
}

proof fn lemma_max_attempts_step(
    strategy: &MaxAttempts,
    id: ShardId,
    old: (ShardStatus, usize),
    new: (ShardStatus, usize),
    reason: ReconnectCause,
    signal: ShardSignal,
)
    requires
        retryable_failure(reason),
        asked_transition(old, new, id, reason, Some(strategy), signal),
    ensures
        reconnect_transition(old, new, id, reason, Some(old.1 < strategy@), signal),
{
    let verdict = choose|verdict: Option<bool>|
        (!reason.occasional() ==> strategy_verdict(Some(strategy), id, old.1, reason, verdict))
        && reconnect_transition(old, new, id, reason, verdict, signal);
    assert(verdict == Some(old.1 < strategy@));
}

proof fn lemma_attempts_count_up(
    strategy: &MaxAttempts,
    id: ShardId,
    states: Seq<(ShardStatus, usize)>,
    reasons: Seq<ReconnectCause>,
    signals: Seq<ShardSignal>,
    k: int,
)
    requires
        strategy@ < usize::MAX,
        reasons.len() == strategy@ + 1,
        states.len() == reasons.len() + 1,
        signals.len() == reasons.len(),
        states[0].1 == 0,
        forall|i: int| 0 <= i < reasons.len() ==> retryable_failure(#[trigger] reasons[i]),
        forall|i: int| 0 <= i < reasons.len() ==> #[trigger] asked_transition(
            states[i], states[i + 1], id, reasons[i], Some(strategy), signals[i]),
        0 <= k <= strategy@,
    ensures
        states[k].1 == k,
        states[k].0 == states[0].0,
    decreases k,
{
    if k > 0 {
        let j = k - 1;
        lemma_attempts_count_up(strategy, id, states, reasons, signals, j);
        assert(asked_transition(states[j], states[j + 1], id, reasons[j], Some(strategy), signals[j]));
        assert(retryable_failure(reasons[j]));
        lemma_max_attempts_step(strategy, id, states[j], states[j + 1], reasons[j], signals[j]);
    }
}

/// A runner that asks `MaxAttempts(max)` and starts from zero failed
/// attempts retries `max` consecutive connection failures (each a reconnect
/// that counts one more attempt) and gives up on the next one: that one is
/// fatal and the runner reports its shard fatally closed.
pub proof fn law_max_attempts_gives_up_after_limit(
    strategy: &MaxAttempts,
    id: ShardId,
    states: Seq<(ShardStatus, usize)>,
    reasons: Seq<ReconnectCause>,
    signals: Seq<ShardSignal>,
)
    requires
        strategy@ < usize::MAX,
        reasons.len() == strategy@ + 1,
        states.len() == reasons.len() + 1,
        signals.len() == reasons.len(),
        states[0].1 == 0,
        forall|i: int| 0 <= i < reasons.len() ==> retryable_failure(#[trigger] reasons[i]),
        forall|i: int| 0 <= i < reasons.len() ==> #[trigger] asked_transition(
            states[i], states[i + 1], id, reasons[i], Some(strategy), signals[i]),
    ensures
        forall|i: int| 0 <= i < strategy@ ==> (#[trigger] signals[i]) is Reconnect && states[i + 1].1 == i + 1,
        signals[strategy@ as int] is Fatal,
        states[strategy@ + 1].0 == ShardStatus::FatallyClosed,
{
    let max = strategy@;
    assert forall|i: int| 0 <= i < max implies (#[trigger] signals[i]) is Reconnect && states[i + 1].1 == i + 1 by {
        lemma_attempts_count_up(strategy, id, states, reasons, signals, i);
        assert(asked_transition(states[i], states[i + 1], id, reasons[i], Some(strategy), signals[i]));
        assert(retryable_failure(reasons[i]));
        lemma_max_attempts_step(strategy, id, states[i], states[i + 1], reasons[i], signals[i]);
    }
    lemma_attempts_count_up(strategy, id, states, reasons, signals, max as int);
    assert(asked_transition(states[max as int], states[max + 1], id, reasons[max as int], Some(strategy), signals[max as int]));
    assert(retryable_failure(reasons[max as int]));
    lemma_max_attempts_step(strategy, id, states[max as int], states[max + 1], reasons[max as int], signals[max as int]);
}

/// What a text message with event type `kind` and parse outcome `parsed`
/// gives a runner in state `old`, ending in `new`: a parse error is a
/// receive error; `Hello` is signalled with its event; the handshake events
/// (`Ready`, `Resumed`) signal that the shard connected, with their event,
/// and the failed attempts go back to zero; any other event is handed on
/// alone; `None` means there is nothing to report. Only a connection
/// changes the state.
pub open spec fn text_step<E>(
    old: (ShardStatus, usize),
    new: (ShardStatus, usize),
    kind: Option<EventKind>,
    parsed: Result<Option<E>, ReceiveMessageError>,
    r: Option<(Option<ShardSignal>, Option<E>)>,
) -> bool {
    match parsed {
        Err(error) => new == old && r == Some((Some(ShardSignal::ReceiveError { error }), None::<E>)),
        Ok(event) => match kind {
            Some(EventKind::GatewayHello) => new == old && r == Some((Some(ShardSignal::Hello), event)),
            Some(EventKind::Ready) | Some(EventKind::Resumed) => new == (old.0, 0usize) && r == Some((Some(ShardSignal::Connected), event)),
            _ => new == old && match event {
                Some(e) => r == Some((None::<ShardSignal>, Some(e))),
                None => r is None,
            },
        },
    }
}

/// A raw gateway message whose event type name is `"READY"` or `"RESUMED"`
/// and that parses signals that the shard connected and finished its
/// handshake, handing on the parsed event, and the failed attempts go back
/// to zero.
pub proof fn law_handshake_payload_connects<E>(
    old: (ShardStatus, usize),
    new: (ShardStatus, usize),
    json: Seq<char>,
    kind: Option<EventKind>,
    event: Option<E>,
    r: Option<(Option<ShardSignal>, Option<E>)>,
)
    requires
        payload_named(json, "READY"@) || payload_named(json, "RESUMED"@),
        !payload_is_hello(json),
        extracted_kind(json, kind),
        text_step(old, new, kind, Ok::<Option<E>, ReceiveMessageError>(event), r),
    ensures
        r == Some((Some(ShardSignal::Connected), event)),
        new == (old.0, 0usize),
{
}

/// The gateway's hello payload (opcode 10) that parses makes the runner
/// signal `Hello`, handing on the parsed event, and changes nothing.
pub proof fn law_hello_payload_says_hello<E>(
    old: (ShardStatus, usize),
    new: (ShardStatus, usize),
    json: Seq<char>,
    kind: Option<EventKind>,
    event: Option<E>,
    r: Option<(Option<ShardSignal>, Option<E>)>,
)
    requires
        payload_is_hello(json),
        extracted_kind(json, kind),
        text_step(old, new, kind, Ok::<Option<E>, ReceiveMessageError>(event), r),
    ensures
        r == Some((Some(ShardSignal::Hello), event)),
        new == old,
{
}

/// A reconnection for an occasional cause (a manual request, a session
/// invalidation, a heartbeat timeout) is a plain reconnect that leaves the
/// runner as it was: its status and its count of failed attempts are
/// untouched, whatever the strategy would answer.
pub proof fn law_occasional_cause_changes_nothing(
    old: (ShardStatus, usize),
    new: (ShardStatus, usize),
    id: ShardId,
    reason: ReconnectCause,
    verdict: Option<bool>,
    signal: ShardSignal,
)
    requires
        reason is Manual || reason is SessionInvalidated || reason is HeartbeatTimeout,
        reconnect_transition(old, new, id, reason, verdict, signal),
    ensures
        new == old,
        signal == (ShardSignal::Reconnect { cause: reason }),
{
}

/// A closed connection with a close code that allows reconnecting, or a
/// network error, that the strategy does not refuse is one more failed
/// attempt: the runner reconnects, its status stays, and its count goes up
/// by exactly one (it starts again at one only where it cannot grow).
pub proof fn law_failure_counts_one_attempt(
    old: (ShardStatus, usize),
    new: (ShardStatus, usize),
    id: ShardId,
    reason: ReconnectCause,
    verdict: Option<bool>,
    signal: ShardSignal,
)
    requires
        reason is NetworkError || (reason matches ReconnectCause::ConnectionClosed(f)
            && !(f.code == 4004 || (4010 <= f.code && f.code <= 4014))),
        verdict != Some(false),
        reconnect_transition(old, new, id, reason, verdict, signal),
    ensures
        signal == (ShardSignal::Reconnect { cause: reason }),
        new.0 == old.0,
        old.1 < usize::MAX ==> new.1 == old.1 + 1,
        old.1 == usize::MAX ==> new.1 == 1,
{
}

/// A refusal of the strategy, or a close with a fatal code (4004 or 4010 to
/// 4014), for a closed connection or a network error is fatal: the runner
/// is fatally closed, keeps its count, and signals the error of shard `id`
/// with the close frame (a gateway error) or the network error (a connect
/// error).
pub proof fn law_refusal_or_fatal_code_is_fatal(
    old: (ShardStatus, usize),
    new: (ShardStatus, usize),
    id: ShardId,
    reason: ReconnectCause,
    verdict: Option<bool>,
    signal: ShardSignal,
)
    requires
        reason is NetworkError || reason is ConnectionClosed,
        verdict == Some(false) || (reason matches ReconnectCause::ConnectionClosed(f)
            && (f.code == 4004 || (4010 <= f.code && f.code <= 4014))),
        reconnect_transition(old, new, id, reason, verdict, signal),
    ensures
        new == (ShardStatus::FatallyClosed, old.1),
        signal matches ShardSignal::Fatal { error } && error@.0 == id && match reason {
            ReconnectCause::ConnectionClosed(f) => error@.1 == InitShardErrorType::Gateway(f),
            ReconnectCause::NetworkError(e) => error@.1 == InitShardErrorType::Connect(ConnectError::Network(e)),
            _ => false,
        },
{
}

/// A failure to reconnect (a network error) is never let pass: either the
/// runner reconnects and counts one more failed attempt, or the strategy
/// refused and the runner is fatally closed with a connect error carrying
/// that very network error. Without a strategy, it always reconnects.
pub proof fn law_network_failure_counts_or_is_fatal<S: ReconnectStrategy + ?Sized>(
    old: (ShardStatus, usize),
    new: (ShardStatus, usize),
    id: ShardId,
    error: ReceiveMessageError,
    strategy: Option<&S>,
    signal: ShardSignal,
)
    requires
        asked_transition(old, new, id, ReconnectCause::NetworkError(error), strategy, signal),
    ensures
        (signal == (ShardSignal::Reconnect { cause: ReconnectCause::NetworkError(error) })
            && new.0 == old.0 && (old.1 < usize::MAX ==> new.1 == old.1 + 1))
        || (new == (ShardStatus::FatallyClosed, old.1) && (signal matches ShardSignal::Fatal { error: e }
            && e@ == (id, InitShardErrorType::Connect(ConnectError::Network(error))))),
        strategy is None ==> signal == (ShardSignal::Reconnect { cause: ReconnectCause::NetworkError(error) }),
{
}

/// How a close frame is classified: code 4009 (session timed out) always
/// invalidates the session; code 1006 with a session is a heartbeat
/// timeout; every other frame, 4007 and the fatal codes included, is the
/// closed connection itself, frame and all. A missing frame is a closed
/// connection with code 4000, "unknown reason".
pub proof fn law_close_classification(frame: Option<CloseFrame>, has_session: bool, cause: ReconnectCause)
    requires
        close_cause_of(frame, has_session, cause),
    ensures
        match frame {
            Some(f) => if f.code == 4009 {
                cause is SessionInvalidated
            } else if f.code == 1006 && has_session {
                cause is HeartbeatTimeout
            } else {
                cause == ReconnectCause::ConnectionClosed(f)
            },
            None => cause matches ReconnectCause::ConnectionClosed(f)
                && f.code == 4000 && f.reason@ == "unknown reason"@,
        },
        cause is SessionInvalidated <==> (frame matches Some(f) && f.code == 4009),
        cause is HeartbeatTimeout <==> (frame matches Some(f) && f.code == 1006 && has_session),
        !(cause is Manual || cause is NetworkError),
{
}

/// A text message whose parse failed is a receive error and nothing else:
/// the runner's status and count of failed attempts stay as they were,
/// whatever the message's event type.
pub proof fn law_parse_error_changes_nothing<E>(
    old: (ShardStatus, usize),
    new: (ShardStatus, usize),
    kind: Option<EventKind>,
    error: ReceiveMessageError,
    r: Option<(Option<ShardSignal>, Option<E>)>,
)
    requires
        text_step(old, new, kind, Err::<Option<E>, ReceiveMessageError>(error), r),
    ensures
        new == old,
        r == Some((Some(ShardSignal::ReceiveError { error }), None::<E>)),
{
}

/// No parsed event is dropped: every event that parsing gave is handed on,
/// with no signal, unless it is a hello or a handshake event, whatever its
/// kind (another dispatch type, or none at all, as for a heartbeat
/// acknowledgement), and the runner stays as it was. A message filtered out
/// (no event) reports nothing.
pub proof fn law_parsed_events_are_handed_on<E>(
    old: (ShardStatus, usize),
    new: (ShardStatus, usize),
    kind: Option<EventKind>,
    event: Option<E>,
    r: Option<(Option<ShardSignal>, Option<E>)>,
)
    requires
        !(kind matches Some(EventKind::GatewayHello)),
        !(kind matches Some(EventKind::Ready)),
        !(kind matches Some(EventKind::Resumed)),
        text_step(old, new, kind, Ok::<Option<E>, ReceiveMessageError>(event), r),
    ensures
        new == old,
        event matches Some(e) ==> r == Some((None::<ShardSignal>, Some(e))),
        event is None ==> r is None,
{
}

/// A hello or a handshake event that parsed is signalled with its event,
/// whether or not parsing gave one: a hello changes nothing, a handshake
/// event (the shard identified) brings the count of failed attempts back to
/// zero and keeps the status.
pub proof fn law_signalled_events_keep_their_event<E>(
    old: (ShardStatus, usize),
    new: (ShardStatus, usize),
    kind: Option<EventKind>,
    event: Option<E>,
    r: Option<(Option<ShardSignal>, Option<E>)>,
)
    requires
        text_step(old, new, kind, Ok::<Option<E>, ReceiveMessageError>(event), r),
    ensures
        kind matches Some(EventKind::GatewayHello) ==> new == old && r == Some((Some(ShardSignal::Hello), event)),
        (kind matches Some(EventKind::Ready) || kind matches Some(EventKind::Resumed))
            ==> new == (old.0, 0usize) && r == Some((Some(ShardSignal::Connected), event)),
{
}

/// The state of a shard runner that its decisions read and change: the
/// status it reports (the shard's own, or `FatallyClosed` once a reconnect
/// was refused) and the number of failed reconnection attempts.
pub struct ShardRunnerState {
    fake_state: ShardStatus,
    reconnect_attempts: usize,
}

impl View for ShardRunnerState {
    type V = (ShardStatus, usize);

    closed spec fn view(&self) -> (ShardStatus, usize) {
        (self.fake_state, self.reconnect_attempts)
    }
}

impl ShardRunnerState {
    /// The state of a runner whose new shard is in `status`, with no failed
    /// attempts.
    pub fn new(status: ShardStatus) -> (s: ShardRunnerState)
        ensures
            s@ == (status, 0usize),
    {
        ShardRunnerState { fake_state: status, reconnect_attempts: 0 }
    }

    /// The status that the runner reports.
    pub fn state(&self) -> (status: ShardStatus)
        ensures
            status == self@.0,
    {
        self.fake_state
    }

    /// The status to publish for the shard whose live status is `live`:
    /// `FatallyClosed` once the runner reports it so (a reconnect was
    /// refused, which the shard itself does not know), and the live status
    /// otherwise, so that a count of reconnect attempts is never stale.
    pub fn published_status(&self, live: ShardStatus) -> (status: ShardStatus)
        ensures
            status == if self@.0 == ShardStatus::FatallyClosed { ShardStatus::FatallyClosed } else { live },
    {
        if self.fake_state.is_fatally_closed() {
            ShardStatus::FatallyClosed
        } else {
            live
        }
    }

    /// Whether the runner reports its shard as fatally closed.
    pub fn is_fatally_closed(&self) -> (r: bool)
        ensures
            r <==> self@.0 == ShardStatus::FatallyClosed,
    {
        self.fake_state.is_fatally_closed()
    }

    /// The number of failed reconnection attempts.
    pub fn reconnect_attempts(&self) -> (n: usize)
        ensures
            n == self@.1,
    {
        self.reconnect_attempts
    }

    /// Resets the number of failed reconnection attempts to zero.
    pub fn reset_reconnect_attempts(&mut self)
        ensures
            final(self)@ == (old(self)@.0, 0usize),
    {
        self.reconnect_attempts = 0;
    }

    /// Takes over the status of the shard, as the runner does on every
    /// message it receives and when it recreates its shard.
    pub fn observe(&mut self, status: ShardStatus)
        ensures
            final(self)@ == (status, old(self)@.1),
    {
        self.fake_state = status;
    }

    /// Decides a reconnection for shard `id` from its cause and the verdict
    /// of the reconnect strategy (`None` without a strategy).
    pub fn settle_reconnect(&mut self, id: ShardId, reason: ReconnectCause, verdict: Option<bool>) -> (signal: ShardSignal)
        ensures
            reconnect_transition(old(self)@, final(self)@, id, reason, verdict, signal),
    {
        if reason.is_occasional() {
            return ShardSignal::Reconnect { cause: reason };
        }
        let is_fatal = match &reason {
            ReconnectCause::ConnectionClosed(frame) => has_fatal_error_code(frame),
            _ => false,
        };
        let refused = match verdict {
            Some(allowed) => !allowed,
            None => false,
        };
        if refused || is_fatal {
            let kind = match reason {
                ReconnectCause::ConnectionClosed(frame) => InitShardErrorType::Gateway(frame),
                ReconnectCause::NetworkError(error) => InitShardErrorType::Connect(ConnectError::Network(error)),
                _ => {
                    proof { assert(false); }
                    return ShardSignal::Reconnect { cause: reason };
                },
            };
            self.fake_state = ShardStatus::FatallyClosed;
            return ShardSignal::Fatal { error: InitShardError::new(id, kind) };
        }
        match self.reconnect_attempts.checked_add(1) {
            Some(n) => self.reconnect_attempts = n,
            None => self.reconnect_attempts = 1,
        }
        ShardSignal::Reconnect { cause: reason }
    }

    /// Handles a reconnection of shard `id`: an occasional cause is a plain
    /// reconnect; otherwise the strategy, if any, is asked whether shard `id`
    /// should reconnect after the failed attempts so far, and its answer is
    /// settled as [`ShardRunnerState::settle_reconnect`] states.
    pub fn attempt_reconnect<S: ReconnectStrategy + ?Sized>(
        &mut self,
        id: ShardId,
        reason: ReconnectCause,
        strategy: Option<&S>,
    ) -> (signal: ShardSignal)
        ensures
            asked_transition(old(self)@, final(self)@, id, reason, strategy, signal),
    {
        if reason.is_occasional() {
            return self.settle_reconnect(id, reason, None);
        }
        let verdict = match strategy {
            Some(s) => Some(s.should_reconnect(id, self.reconnect_attempts, &reason)),
            None => None,
        };
        self.settle_reconnect(id, reason, verdict)
    }

    /// The cause that a close message stands for, as `close_cause_of` states.
    pub fn close_cause(frame: Option<CloseFrame>, has_session: bool) -> (cause: ReconnectCause)
        ensures
            close_cause_of(frame, has_session, cause),
    {
        let frame = match frame {
            Some(f) => f,
            None => CloseFrame::unknown_reason(),
        };
        if is_session_timeout(frame.code) {
            ReconnectCause::SessionInvalidated
        } else if frame.code == 1006 && has_session {
            ReconnectCause::HeartbeatTimeout
        } else {
            ReconnectCause::ConnectionClosed(frame)
        }
    }

    /// Handles a close message of shard `id`: its cause (as `close_cause_of`
    /// states) goes through [`ShardRunnerState::attempt_reconnect`].
    pub fn on_close<S: ReconnectStrategy + ?Sized>(
        &mut self,
        id: ShardId,
        frame: Option<CloseFrame>,
        has_session: bool,
        strategy: Option<&S>,
    ) -> (signal: ShardSignal)
        ensures
            exists|cause: ReconnectCause|
                close_cause_of(frame, has_session, cause)
                && asked_transition(old(self)@, final(self)@, id, cause, strategy, signal),
    {
        let cause = ShardRunnerState::close_cause(frame, has_session);
        self.attempt_reconnect(id, cause, strategy)
    }

    /// Handles a receive error of shard `id` whose kind is known: a failure
    /// to reconnect (`reconnect`) goes through
    /// [`ShardRunnerState::attempt_reconnect`] as a network error; any other
    /// error (a decompression failure, say) is handed back as a receive
    /// error and changes nothing.
    pub fn on_classified_receive_error<S: ReconnectStrategy + ?Sized>(
        &mut self,
        id: ShardId,
        error: ReceiveMessageError,
        reconnect: bool,
        strategy: Option<&S>,
    ) -> (signal: ShardSignal)
        ensures
            !reconnect ==> final(self)@ == old(self)@ && signal == (ShardSignal::ReceiveError { error }),
            reconnect ==> asked_transition(old(self)@, final(self)@, id, ReconnectCause::NetworkError(error), strategy, signal),
    {
        if reconnect {
            self.attempt_reconnect(id, ReconnectCause::NetworkError(error), strategy)
        } else {
            ShardSignal::ReceiveError { error }
        }
    }

    /// Handles a receive error of shard `id`, after asking the error whether
    /// it is a failure to reconnect (`reconnect_kind`), as
    /// [`ShardRunnerState::on_classified_receive_error`] states for either
    /// answer.
    pub fn on_receive_error<S: ReconnectStrategy + ?Sized>(
        &mut self,
        id: ShardId,
        error: ReceiveMessageError,
        strategy: Option<&S>,
    ) -> (signal: ShardSignal)
        ensures
            !reconnect_kind(error) ==> final(self)@ == old(self)@ && signal == (ShardSignal::ReceiveError { error }),
            reconnect_kind(error) ==> asked_transition(old(self)@, final(self)@, id, ReconnectCause::NetworkError(error), strategy, signal),
    {
        let reconnect = is_reconnect_error(&error);
        self.on_classified_receive_error(id, error, reconnect, strategy)
    }

    /// Handles a text message from the gateway: `kind` is its extracted event
    /// type and `parsed` the event that parsing gave (none where the event
    /// type is filtered out). A parse error is a receive error; `Hello` and
    /// the handshake events (`Ready`, `Resumed`) are signalled with their
    /// event; the latter mean that the shard identified, so they reset the
    /// strategy and bring the failed attempts back to zero; any other event
    /// is handed on alone. `None` means there is nothing to report and the
    /// runner receives the next message. Only an identification changes the
    /// state, as `text_step` states.
    pub fn on_text<S: ReconnectStrategy + ?Sized, E>(
        &mut self,
        kind: Option<EventKind>,
        parsed: Result<Option<E>, ReceiveMessageError>,
        strategy: Option<&S>,
    ) -> (r: Option<(Option<ShardSignal>, Option<E>)>)
        ensures
            text_step(old(self)@, final(self)@, kind, parsed, r),
    {
        let event = match parsed {
            Err(error) => return Some((Some(ShardSignal::ReceiveError { error }), None)),
            Ok(event) => event,
        };
        match kind {
            Some(EventKind::GatewayHello) => Some((Some(ShardSignal::Hello), event)),
            Some(EventKind::Ready) | Some(EventKind::Resumed) => {
                match strategy {
                    Some(s) => s.reset(),
                    None => {},
                }
                self.reconnect_attempts = 0;
                Some((Some(ShardSignal::Connected), event))
            },
            _ => match event {
                Some(e) => Some((None, Some(e))),
                None => None,
            },
        }
    }

    /// Handles a raw text message from the gateway: extracts its event type
    /// (as `extracted_kind` states), parses it with the event type flags whose
    /// bits are `flags` (the result that `gateway_parsed` names, so the event
    /// handed on is the one parsed from this very payload), and goes on as
    /// [`ShardRunnerState::on_text`] does.
    pub fn on_text_message<S: ReconnectStrategy + ?Sized>(
        &mut self,
        json: String,
        flags: u128,
        strategy: Option<&S>,
    ) -> (r: Option<(Option<ShardSignal>, Option<Event>)>)
        ensures
            exists|kind: Option<EventKind>|
                extracted_kind(json@, kind)
                && text_step(old(self)@, final(self)@, kind, gateway_parsed(json@, flags), r),
    {
        let kind = extract_event_type(json.as_str());
        let parsed = parse_event(json, flags);
        self.on_text(kind, parsed, strategy)
    }
}

} // verus!
