//! The decisions of a shard daemon: what it does with the requests of its
//! handle, and how it reacts to the signals of its runner and to a
//! shutdown.

use std::sync::Arc;
use twilight_gateway::error::ReceiveMessageError;
use vstd::prelude::*;

use crate::error::{ConnectError, InitShardError, InitShardErrorType, ShardTerminated};
use crate::gateway::{CloseFrame, ShardStatus};
use crate::range::ShardId;
use crate::signal::{ReconnectCause, ShardSignal};

verus! {

/// A request from a shard handle to its daemon. `C` answers a close
/// request, `R` a reconfiguration request.
pub enum DaemonMessage<C, R> {
    /// Send a command (its JSON) to the shard.
    Command {
        /// The serialized command.
        json: String,
    },
    /// Close the shard connection.
    Close {
        /// The close frame to send to the gateway.
        frame: CloseFrame,
        /// Notified when the close is complete.
        response: Option<C>,
    },
    /// Rebuild the shard from the current configuration (token, intents,
    /// resume URL), so that it identifies afresh.
    Reconfigure {
        /// Answered once the rebuilt shard identified or failed.
        response: Option<R>,
    },
}

/// What a daemon does for a request of its handle.
pub enum DaemonAction<C> {
    /// Send the command to the shard.
    Send {
        /// The serialized command.
        json: String,
    },
    /// Close the connection with the frame, then notify the responder.
    Close {
        /// The close frame.
        frame: CloseFrame,
        /// Notified when the close is complete.
        response: Option<C>,
    },
    /// Close the connection, unless it is already disconnected, and
    /// recreate the shard from the current configuration.
    Rebuild,
}

/// What a daemon does in answer to a signal of its runner. `R` is the
/// responder of a pending reconfiguration request.
pub enum DaemonReaction<R> {
    /// Nothing to do.
    Nothing,
    /// The shard said hello: clear the error published on its handle.
    ClearError,
    /// The shard identified: clear the error published on its handle, then
    /// answer every pending responder with success.
    Identified {
        /// The pending responders.
        responders: Vec<R>,
    },
    /// The shard failed fatally: publish the error on its handle and answer
    /// every pending responder with it.
    Failed {
        /// The error.
        error: Arc<InitShardError>,
        /// The pending responders.
        responders: Vec<R>,
    },
    /// The shard is reconnecting (to be logged).
    Reconnecting {
        /// The cause.
        cause: ReconnectCause,
    },
    /// Receiving a message failed (to be logged).
    ReceiveFailed {
        /// The error.
        error: ReceiveMessageError,
    },
}

/// The error that pending reconfiguration requests of shard `id` are
/// answered with when its daemon shuts down: a connect error saying that
/// the shard was terminated.
pub open spec fn terminated_error(id: ShardId, kind: InitShardErrorType) -> bool {
    kind matches InitShardErrorType::Connect(ConnectError::Terminated(t)) && t@ == id
}

/// The pending responders after a reconfiguration request with `response`.
pub open spec fn with_response<R>(pending: Seq<R>, response: Option<R>) -> Seq<R> {
    match response {
        Some(r) => pending.push(r),
        None => pending,
    }
}

/// How a daemon in state `old` (busy, pending responders) handles a request
/// of its handle, ending in state `new`: a command is sent and changes
/// nothing; a close makes the daemon busy and closes the connection; a
/// reconfiguration makes it busy, adds its responder to the pending ones and
/// rebuilds the shard.
pub open spec fn message_action<C, R>(
    old: (bool, Seq<R>),
    new: (bool, Seq<R>),
    message: DaemonMessage<C, R>,
    action: DaemonAction<C>,
) -> bool {
    match message {
        DaemonMessage::Command { json } => new == old && action == (DaemonAction::Send::<C> { json }),
        DaemonMessage::Close { frame, response } => new == (true, old.1) && action == (DaemonAction::Close { frame, response }),
        DaemonMessage::Reconfigure { response } => new == (true, with_response(old.1, response)) && action is Rebuild,
    }
}

/// How a daemon in state `old` (busy, pending responders) reacts to a runner
/// signal, ending in state `new`: a hello clears the published error; a
/// connection clears it too and answers every pending responder with
/// success; a fatal error publishes the error and answers them with it; the
/// other signals change nothing.
pub open spec fn signal_reaction<R>(
    old: (bool, Seq<R>),
    new: (bool, Seq<R>),
    signal: Option<ShardSignal>,
    reaction: DaemonReaction<R>,
) -> bool {
    match signal {
        None => new == old && reaction is Nothing,
        Some(ShardSignal::Hello) => new == old && reaction is ClearError,
        Some(ShardSignal::Connected) => {
            &&& new == (false, Seq::<R>::empty())
            &&& reaction matches DaemonReaction::Identified { responders } && responders@ == old.1
        },
        Some(ShardSignal::Fatal { error }) => {
            &&& new == (false, Seq::<R>::empty())
            &&& reaction matches DaemonReaction::Failed { error: e, responders } && e@ == error@ && responders@ == old.1
        },
        Some(ShardSignal::Reconnect { cause }) => new == old && reaction == (DaemonReaction::Reconnecting::<R> { cause }),
        Some(ShardSignal::ReceiveError { error }) => new == old && reaction == (DaemonReaction::ReceiveFailed::<R> { error }),
    }
}

/// What each request of the handle does to a daemon: a command is sent as
/// it is and changes nothing; a close makes the daemon busy, keeps what is
/// pending, and closes with the very frame and responder of the request; a
/// reconfiguration makes it busy, keeps what was pending and adds its
/// responder, if any, at the end, and rebuilds the shard.
pub proof fn law_request_effects<C, R>(
    old: (bool, Seq<R>),
    new: (bool, Seq<R>),
    message: DaemonMessage<C, R>,
    action: DaemonAction<C>,
)
    requires
        message_action(old, new, message, action),
    ensures
        message matches DaemonMessage::Command { json } ==> (new == old
            && (action matches DaemonAction::Send { json: sent } && sent == json)),
        message matches DaemonMessage::Close { frame, response } ==> (new == (true, old.1)
            && (action matches DaemonAction::Close { frame: f, response: t } && f == frame && t == response)),
        message matches DaemonMessage::Reconfigure { response } ==> (new.0 && action is Rebuild
            && new.1.len() == old.1.len() + (if response is Some { 1int } else { 0int })
            && new.1.take(old.1.len() as int) == old.1
            && (response matches Some(t) ==> new.1.last() == t)),
{
    match message {
        DaemonMessage::Reconfigure { response } => {
            match response {
                Some(t) => assert(old.1.push(t).take(old.1.len() as int) =~= old.1),
                None => assert(old.1.take(old.1.len() as int) =~= old.1),
            }
        },
        _ => {},
    }
}

/// What each runner signal does to a daemon: a connection or a fatal error
/// ends the busy period, leaving the daemon idle with nothing pending, and
/// hands out exactly what was pending (with the very error for a fatal
/// one); a reconnection or a receive error is handed back unchanged to be
/// logged, and, like a hello or no signal, leaves the daemon as it was.
pub proof fn law_signal_effects<R>(
    old: (bool, Seq<R>),
    new: (bool, Seq<R>),
    signal: Option<ShardSignal>,
    reaction: DaemonReaction<R>,
)
    requires
        signal_reaction(old, new, signal, reaction),
    ensures
        (signal matches Some(ShardSignal::Connected) || signal matches Some(ShardSignal::Fatal { .. }))
            ==> !new.0 && new.1.len() == 0,
        !(signal matches Some(ShardSignal::Connected) || signal matches Some(ShardSignal::Fatal { .. }))
            ==> new == old,
        signal matches Some(ShardSignal::Connected) ==> (reaction matches DaemonReaction::Identified { responders }
            && responders@ == old.1),
        signal matches Some(ShardSignal::Fatal { error }) ==> (reaction matches DaemonReaction::Failed { error: e, responders }
            && e@ == error@ && responders@ == old.1),
        signal matches Some(ShardSignal::Reconnect { cause }) ==> (reaction matches DaemonReaction::Reconnecting { cause: c }
            && c == cause),
        signal matches Some(ShardSignal::ReceiveError { error }) ==> (reaction matches DaemonReaction::ReceiveFailed { error: e }
            && e == error),
        signal is None ==> reaction is Nothing,
{
}

/// A reconfiguration request followed by the runner's connection answers
/// that very request, and every other pending one, with success, and
/// leaves the daemon idle with nothing pending.
pub proof fn law_reconfigure_then_connected_answers_request<C, R>(
    old: (bool, Seq<R>),
    request: R,
    after_request: (bool, Seq<R>),
    action: DaemonAction<C>,
    after: (bool, Seq<R>),
    reaction: DaemonReaction<R>,
)
    requires
        message_action(old, after_request, DaemonMessage::Reconfigure::<C, R> { response: Some(request) }, action),
        signal_reaction(after_request, after, Some(ShardSignal::Connected), reaction),
    ensures
        action is Rebuild,
        reaction matches DaemonReaction::Identified { responders } && responders@ == old.1.push(request)
            && responders@.contains(request),
        after == (false, Seq::<R>::empty()),
{
    assert(old.1.push(request)[old.1.len() as int] == request);
}

/// A reconfiguration request followed by a fatal error of the runner
/// answers that very request, and every other pending one, with that error,
/// the one also published on the handle, and leaves the daemon idle with
/// nothing pending.
pub proof fn law_reconfigure_then_fatal_answers_request<C, R>(
    old: (bool, Seq<R>),
    request: R,
    after_request: (bool, Seq<R>),
    action: DaemonAction<C>,
    error: InitShardError,
    after: (bool, Seq<R>),
    reaction: DaemonReaction<R>,
)
    requires
        message_action(old, after_request, DaemonMessage::Reconfigure::<C, R> { response: Some(request) }, action),
        signal_reaction(after_request, after, Some(ShardSignal::Fatal { error }), reaction),
    ensures
        action is Rebuild,
        reaction matches DaemonReaction::Failed { error: e, responders } && e@ == error@
            && responders@ == old.1.push(request) && responders@.contains(request),
        after == (false, Seq::<R>::empty()),
{
    assert(old.1.push(request)[old.1.len() as int] == request);
}

/// A busy daemon stays busy, and keeps its pending requests, until its
/// runner connects or fails fatally: hellos, reconnections, receive errors
/// and the lack of a signal change nothing.
pub proof fn law_busy_until_settled<R>(
    old: (bool, Seq<R>),
    new: (bool, Seq<R>),
    signal: Option<ShardSignal>,
    reaction: DaemonReaction<R>,
)
    requires
        signal_reaction(old, new, signal, reaction),
        !(signal matches Some(ShardSignal::Connected)),
        !(signal matches Some(ShardSignal::Fatal { .. })),
    ensures
        new == old,
{
}

/// The error published on the handle is cleared whenever the shard
/// connects: on its hello, and again when it has identified. No other
/// signal clears it, and only a fatal error publishes one.
pub proof fn law_connection_clears_error<R>(
    old: (bool, Seq<R>),
    new: (bool, Seq<R>),
    signal: Option<ShardSignal>,
    reaction: DaemonReaction<R>,
)
    requires
        signal_reaction(old, new, signal, reaction),
    ensures
        signal matches Some(ShardSignal::Hello) ==> reaction is ClearError,
        signal matches Some(ShardSignal::Connected) ==> reaction is Identified,
        (reaction is ClearError || reaction is Identified)
            <==> (signal matches Some(ShardSignal::Hello) || signal matches Some(ShardSignal::Connected)),
        reaction is Failed <==> signal matches Some(ShardSignal::Fatal { .. }),
{
}

/// A daemon takes requests only while it is not busy, and then nothing is
/// pending: a reconfiguration request it takes is the only one pending
/// afterwards, and the daemon is busy until its runner settles.
pub proof fn law_taken_reconfigure_is_alone<C, R>(
    old: (bool, Seq<R>),
    request: R,
    new: (bool, Seq<R>),
    action: DaemonAction<C>,
)
    requires
        daemon_wf(old),
        !old.0,
        message_action(old, new, DaemonMessage::Reconfigure::<C, R> { response: Some(request) }, action),
    ensures
        new == (true, seq![request]),
        daemon_wf(new),
{
    assert(old.1 =~= Seq::<R>::empty());
    assert(old.1.push(request) =~= seq![request]);
}

/// Pending requests are answered at most once: whenever a reaction hands
/// responders out, it hands out exactly the pending ones and nothing is
/// pending afterwards; any other reaction keeps them pending.
pub proof fn law_responders_handed_out_once<R>(
    old: (bool, Seq<R>),
    new: (bool, Seq<R>),
    signal: Option<ShardSignal>,
    reaction: DaemonReaction<R>,
)
    requires
        signal_reaction(old, new, signal, reaction),
    ensures
        reaction matches DaemonReaction::Identified { responders } ==> responders@ == old.1 && new.1.len() == 0,
        reaction matches DaemonReaction::Failed { responders, .. } ==> responders@ == old.1 && new.1.len() == 0,
        !(reaction is Identified || reaction is Failed) ==> new.1 == old.1,
{
}

/// The sources a daemon listens to in a turn of its loop, besides shutdown
/// requests, which it always takes.
#[derive(Debug, Clone, Copy, PartialEq, Eq, Structural)]
pub struct DaemonPoll {
    /// Whether it receives from its runner: only while the runner is not
    /// fatally closed.
    pub runner: bool,
    /// Whether it takes requests from its handle: only while it is not
    /// busy; the others stay queued until then.
    pub messages: bool,
}

/// The sources a daemon in state `daemon` (busy, pending responders) listens
/// to when its runner is fatally closed or not.
pub open spec fn poll_of<R>(daemon: (bool, Seq<R>), runner_fatally_closed: bool) -> DaemonPoll {
    DaemonPoll { runner: !runner_fatally_closed, messages: !daemon.0 }
}

/// The state of a shard daemon: whether it is busy with a close or a
/// reconfiguration (and so takes no further requests from its handle), and
/// the responders of the pending reconfiguration requests. Requests are
/// pending only while the daemon is busy.
pub struct ShardDaemonState<R> {
    busy: bool,
    identified_tx: Vec<R>,
}

/// Whether a daemon state (busy, pending responders) is one a daemon can
/// be in: requests are pending only while it is busy.
pub open spec fn daemon_wf<R>(state: (bool, Seq<R>)) -> bool {
    state.1.len() > 0 ==> state.0
}

impl<R> View for ShardDaemonState<R> {
    type V = (bool, Seq<R>);

    closed spec fn view(&self) -> (bool, Seq<R>) {
        (self.busy, self.identified_tx@)
    }
}

impl<R> ShardDaemonState<R> {
    #[verifier::type_invariant]
    spec fn inv(self) -> bool {
        daemon_wf((self.busy, self.identified_tx@))
    }

    /// A daemon that is not busy and has no pending request.
    pub fn new() -> (s: ShardDaemonState<R>)
        ensures
            s@ == (false, Seq::<R>::empty()),
    {
        ShardDaemonState { busy: false, identified_tx: Vec::new() }
    }

    /// Whether the daemon is busy.
    pub fn is_busy(&self) -> (r: bool)
        ensures
            r == self@.0,
    {
        self.busy
    }

    /// Whether the daemon takes requests from its handle: only when it is
    /// not busy, and then nothing is pending.
    pub fn accepts_messages(&self) -> (r: bool)
        ensures
            r == !self@.0,
            daemon_wf(self@),
            r ==> self@.1.len() == 0,
    {
        proof { use_type_invariant(self); }
        !self.busy
    }

    /// The sources to listen to in the next turn of the loop, as `poll_of`
    /// states: the runner unless it is fatally closed, and the handle's
    /// requests unless the daemon is busy (then nothing is pending).
    pub fn poll(&self, runner_fatally_closed: bool) -> (p: DaemonPoll)
        ensures
            p == poll_of(self@, runner_fatally_closed),
            p.messages ==> self@.1.len() == 0,
    {
        proof { use_type_invariant(self); }
        DaemonPoll { runner: !runner_fatally_closed, messages: !self.busy }
    }

    /// The number of pending reconfiguration requests.
    pub fn pending_requests(&self) -> (n: usize)
        ensures
            n == self@.1.len(),
    {
        self.identified_tx.len()
    }

    /// Takes the pending responders out.
    fn take_pending(&mut self) -> (pending: Vec<R>)
        ensures
            pending@ == old(self)@.1,
            final(self)@ == (old(self)@.0, Seq::<R>::empty()),
    {
        proof { use_type_invariant(&*self); }
        let mut pending: Vec<R> = Vec::new();
        std::mem::swap(&mut pending, &mut self.identified_tx);
        pending
    }

    /// Handles a request of the handle, as `message_action` states: a
    /// command is sent; a close makes the daemon busy until its runner
    /// connects or fails, and closes the connection; a reconfiguration does
    /// the same, keeps its responder pending until then, and rebuilds the
    /// shard.
    pub fn on_message<C>(&mut self, message: DaemonMessage<C, R>) -> (action: DaemonAction<C>)
        ensures
            message_action(old(self)@, final(self)@, message, action),
            daemon_wf(old(self)@),
            daemon_wf(final(self)@),
    {
        proof { use_type_invariant(&*self); }
        match message {
            DaemonMessage::Command { json } => DaemonAction::Send { json },
            DaemonMessage::Close { frame, response } => {
                self.busy = true;
                DaemonAction::Close { frame, response }
            },
            DaemonMessage::Reconfigure { response } => {
                self.busy = true;
                match response {
                    Some(r) => {
                        let mut pending = self.take_pending();
                        pending.push(r);
                        self.identified_tx = pending;
                    },
                    None => {},
                }
                DaemonAction::Rebuild
            },
        }
    }

    /// Reacts to a signal of the runner, as `signal_reaction` states: a
    /// hello clears the published error; a connection clears it as well and
    /// answers the pending responders with success and a fatal error answers them with the
    /// error; both end the busy period and leave nothing pending.
    /// Reconnections and receive errors are handed back to be logged.
    pub fn on_signal(&mut self, signal: Option<ShardSignal>) -> (reaction: DaemonReaction<R>)
        ensures
            signal_reaction(old(self)@, final(self)@, signal, reaction),
            daemon_wf(old(self)@),
            daemon_wf(final(self)@),
    {
        proof { use_type_invariant(&*self); }
        match signal {
            None => DaemonReaction::Nothing,
            Some(ShardSignal::Hello) => DaemonReaction::ClearError,
            Some(ShardSignal::Connected) => {
                let responders = self.take_pending();
                self.busy = false;
                DaemonReaction::Identified { responders }
            },
            Some(ShardSignal::Fatal { error }) => {
                let error = Arc::new(error);
                let responders = self.take_pending();
                self.busy = false;
                DaemonReaction::Failed { error, responders }
            },
            Some(ShardSignal::Reconnect { cause }) => DaemonReaction::Reconnecting { cause },
            Some(ShardSignal::ReceiveError { error }) => DaemonReaction::ReceiveFailed { error },
        }
    }

    /// A shutdown of the daemon of shard `id`: the pending responders, if
    /// any, are handed back with the error to answer them with (and to
    /// publish on the handle), a connect error saying that the shard was
    /// terminated; nothing is pending afterwards.
    pub fn on_shutdown(&mut self, id: ShardId) -> (r: Option<(Vec<R>, Arc<InitShardError>)>)
        ensures
            final(self)@ == (old(self)@.0, Seq::<R>::empty()),
            daemon_wf(old(self)@),
            old(self)@.1.len() == 0 ==> r is None,
            old(self)@.1.len() > 0 ==> (r matches Some((responders, e))
                && responders@ == old(self)@.1 && e@.0 == id && terminated_error(id, e@.1)),
    {
        proof { use_type_invariant(&*self); }
        let pending = self.take_pending();
        if pending.len() == 0 {
            return None;
        }
        let kind = InitShardErrorType::Connect(ConnectError::Terminated(ShardTerminated::new(id)));
        Some((pending, Arc::new(InitShardError::new(id, kind))))
    }
}

/// What a shard handle publishes after its daemon processed a runner
/// message.
#[derive(Debug, Clone, Copy, PartialEq, Eq, Structural)]
pub enum HandleUpdate {
    /// The runner drives another shard: publish nothing.
    Ignore,
    /// Publish the latency, and the new status where it changed.
    Refresh {
        /// The status to publish, if it changed.
        state: Option<ShardStatus>,
    },
}

/// What the handle of shard `handle_id` publishes when its runner's shard is
/// `shard_id` in status `new` and the handle shows `current`: nothing for
/// another shard; otherwise the latency, and the status where it changed.
pub fn handle_update(handle_id: ShardId, shard_id: ShardId, current: ShardStatus, new: ShardStatus) -> (u: HandleUpdate)
    ensures
        shard_id != handle_id ==> u == HandleUpdate::Ignore,
        shard_id == handle_id ==> u == (HandleUpdate::Refresh {
            state: if new != current { Some(new) } else { None },
        }),
{
    if shard_id != handle_id {
        return HandleUpdate::Ignore;
    }
    if new != current {
        HandleUpdate::Refresh { state: Some(new) }
    } else {
        HandleUpdate::Refresh { state: None }
    }
}

} // verus!
