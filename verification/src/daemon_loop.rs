//! The loop of a shard daemon as a transition system: what each turn may
//! do, given the decisions of [`ShardDaemonState`](crate::daemon::ShardDaemonState),
//! and what holds of every run.

use vstd::prelude::*;

use crate::daemon::{daemon_wf, message_action, poll_of, signal_reaction, DaemonMessage};
use crate::signal::ShardSignal;

verus! {

/// What happens in a turn of a daemon's loop, or to its request queue.
pub enum LoopEvent<C, R> {
    /// The handle sends a request; it joins the queue.
    Sent(DaemonMessage<C, R>),
    /// The daemon takes the request at the head of the queue.
    Taken(DaemonMessage<C, R>),
    /// The daemon receives from its runner; the runner is fatally closed
    /// afterwards or not.
    Received(Option<ShardSignal>, bool),
    /// The daemon takes a shutdown request and stops.
    Shutdown,
}

/// The state of a daemon's loop: the daemon (busy, pending responders), the
/// queue of requests sent by its handle and not yet taken, whether its
/// runner is fatally closed, and whether the loop still runs.
pub struct LoopState<C, R> {
    /// The daemon: busy, pending responders.
    pub daemon: (bool, Seq<R>),
    /// The requests sent and not yet taken, oldest first.
    pub queue: Seq<DaemonMessage<C, R>>,
    /// Whether the runner is fatally closed.
    pub fatally_closed: bool,
    /// Whether the loop still runs.
    pub running: bool,
}

/// A turn of the loop (or a send of the handle) from `old` to `new`. Sends
/// append to the queue. The daemon takes the head of the queue only while
/// `poll_of` lets it take requests, that is while it is not busy, and
/// handles it as `message_action` states. It receives from its runner only
/// while the runner is not fatally closed, and reacts as `signal_reaction`
/// states. A shutdown answers the pending responders and stops the loop;
/// a stopped loop takes no further turn.
pub open spec fn loop_step<C, R>(old: LoopState<C, R>, new: LoopState<C, R>, event: LoopEvent<C, R>) -> bool {
    match event {
        LoopEvent::Sent(m) => {
            &&& new.daemon == old.daemon
            &&& new.queue == old.queue.push(m)
            &&& new.fatally_closed == old.fatally_closed
            &&& new.running == old.running
        },
        LoopEvent::Taken(m) => {
            &&& old.running && new.running
            &&& poll_of(old.daemon, old.fatally_closed).messages
            &&& old.queue.len() > 0 && m == old.queue[0]
            &&& new.queue == old.queue.drop_first()
            &&& new.fatally_closed == old.fatally_closed
            &&& exists|action| message_action(old.daemon, new.daemon, m, action)
        },
        LoopEvent::Received(signal, closed) => {
            &&& old.running && new.running
            &&& poll_of(old.daemon, old.fatally_closed).runner
            &&& new.queue == old.queue
            &&& new.fatally_closed == closed
            &&& exists|reaction| signal_reaction(old.daemon, new.daemon, signal, reaction)
        },
        LoopEvent::Shutdown => {
            &&& old.running && !new.running
            &&& new.daemon == (old.daemon.0, Seq::<R>::empty())
            &&& new.queue == old.queue
            &&& new.fatally_closed == old.fatally_closed
        },
    }
}

/// Whether `states` and `events` form a run of the loop: each event takes
/// the loop from one state to the next.
pub open spec fn is_run<C, R>(states: Seq<LoopState<C, R>>, events: Seq<LoopEvent<C, R>>) -> bool {
    &&& states.len() == events.len() + 1
    &&& forall|i: int| 0 <= i < events.len() ==> loop_step(#[trigger] states[i], states[i + 1], events[i])
}

/// The requests that the handle sent in `events`, in order.
pub open spec fn sent_requests<C, R>(events: Seq<LoopEvent<C, R>>) -> Seq<DaemonMessage<C, R>>
    decreases events.len(),
{
    if events.len() == 0 {
        Seq::empty()
    } else {
        let before = sent_requests(events.drop_last());
        match events.last() {
            LoopEvent::Sent(m) => before.push(m),
            _ => before,
        }
    }
}

/// The requests that the daemon took in `events`, in order.
pub open spec fn taken_requests<C, R>(events: Seq<LoopEvent<C, R>>) -> Seq<DaemonMessage<C, R>>
    decreases events.len(),
{
    if events.len() == 0 {
        Seq::empty()
    } else {
        let before = taken_requests(events.drop_last());
        match events.last() {
            LoopEvent::Taken(m) => before.push(m),
            _ => before,
        }
    }
}

/// A turn keeps the daemon well formed (requests pending only while busy).
pub proof fn lemma_step_keeps_wf<C, R>(old: LoopState<C, R>, new: LoopState<C, R>, event: LoopEvent<C, R>)
    requires
        daemon_wf(old.daemon),
        loop_step(old, new, event),
    ensures
        daemon_wf(new.daemon),
{
    match event {
        LoopEvent::Taken(m) => {
            let action = choose|action| message_action(old.daemon, new.daemon, m, action);
            assert(message_action(old.daemon, new.daemon, m, action));
        },
        LoopEvent::Received(signal, closed) => {
            let reaction = choose|reaction| signal_reaction(old.daemon, new.daemon, signal, reaction);
            assert(signal_reaction(old.daemon, new.daemon, signal, reaction));
        },
        _ => {},
    }
}

/// Requests are handled in the order they were sent: at every point of a
/// run that starts with an empty queue, the requests sent so far are those
/// taken so far followed by those still queued. So the daemon takes a
/// prefix of what was sent, in send order, and while it is busy the queue
/// only grows.
pub proof fn law_requests_taken_in_send_order<C, R>(
    states: Seq<LoopState<C, R>>,
    events: Seq<LoopEvent<C, R>>,
    i: int,
)
    requires
        is_run(states, events),
        states[0].queue.len() == 0,
        0 <= i <= events.len(),
    ensures
        sent_requests(events.take(i)) == taken_requests(events.take(i)) + states[i].queue,
    decreases i,
{
    if i == 0 {
        assert(events.take(0) =~= Seq::<LoopEvent<C, R>>::empty());
        assert(taken_requests(events.take(0)) + states[0].queue =~= Seq::<DaemonMessage<C, R>>::empty());
    } else {
        law_requests_taken_in_send_order(states, events, i - 1);
        let prev = events.take(i - 1);
        assert(events.take(i).drop_last() =~= prev);
        assert(events.take(i).last() == events[i - 1]);
        assert(loop_step(states[i - 1], states[i], events[i - 1]));
        let sent = sent_requests(prev);
        let taken = taken_requests(prev);
        let queue = states[i - 1].queue;
        match events[i - 1] {
            LoopEvent::Sent(m) => {
                assert((taken + queue).push(m) =~= taken + queue.push(m));
            },
            LoopEvent::Taken(m) => {
                assert(taken.push(m) + queue.drop_first() =~= taken + queue);
            },
            _ => {},
        }
    }
}

/// While a daemon is busy, no request leaves the queue: a turn from a busy
/// state keeps every queued request, in place, and may only add new ones
/// behind them.
pub proof fn law_busy_daemon_takes_nothing<C, R>(old: LoopState<C, R>, new: LoopState<C, R>, event: LoopEvent<C, R>)
    requires
        loop_step(old, new, event),
        old.daemon.0,
    ensures
        !(event is Taken),
        new.queue.len() >= old.queue.len(),
        new.queue.take(old.queue.len() as int) == old.queue,
{
    match event {
        LoopEvent::Sent(m) => {
            assert(old.queue.push(m).take(old.queue.len() as int) =~= old.queue);
        },
        _ => {
            assert(new.queue.take(old.queue.len() as int) =~= old.queue);
        },
    }
}

/// Whether the event is the runner's connection or fatal failure, the
/// signals that end a busy period.
pub open spec fn settles<C, R>(event: LoopEvent<C, R>) -> bool {
    event matches LoopEvent::Received(Some(ShardSignal::Connected), _)
        || event matches LoopEvent::Received(Some(ShardSignal::Fatal { .. }), _)
}

/// Requests are pending only while the daemon is busy, at every point of a
/// run that starts so.
pub proof fn law_run_keeps_wf<C, R>(states: Seq<LoopState<C, R>>, events: Seq<LoopEvent<C, R>>, i: int)
    requires
        is_run(states, events),
        daemon_wf(states[0].daemon),
        0 <= i <= events.len(),
    ensures
        daemon_wf(states[i].daemon),
    decreases i,
{
    if i > 0 {
        law_run_keeps_wf(states, events, i - 1);
        assert(loop_step(states[i - 1], states[i], events[i - 1]));
        lemma_step_keeps_wf(states[i - 1], states[i], events[i - 1]);
    }
}

/// A busy daemon stays busy until its runner connects or fails fatally,
/// and meanwhile takes no request: from a busy state at `i`, if no event
/// up to `j` settles it, the daemon is still busy at `j` and every request
/// queued at `i` is still queued, in place.
pub proof fn law_busy_run_takes_nothing<C, R>(
    states: Seq<LoopState<C, R>>,
    events: Seq<LoopEvent<C, R>>,
    i: int,
    j: int,
)
    requires
        is_run(states, events),
        0 <= i <= j <= events.len(),
        states[i].daemon.0,
        forall|k: int| i <= k < j ==> !settles(#[trigger] events[k]),
    ensures
        states[j].daemon.0,
        states[j].queue.len() >= states[i].queue.len(),
        states[j].queue.take(states[i].queue.len() as int) == states[i].queue,
    decreases j - i,
{
    if j > i {
        law_busy_run_takes_nothing(states, events, i, j - 1);
        let k = j - 1;
        assert(loop_step(states[k], states[j], events[k]));
        assert(!settles(events[k]));
        law_busy_daemon_takes_nothing(states[k], states[j], events[k]);
        match events[k] {
            LoopEvent::Received(signal, closed) => {
                let reaction = choose|reaction| signal_reaction(states[k].daemon, states[j].daemon, signal, reaction);
                assert(signal_reaction(states[k].daemon, states[j].daemon, signal, reaction));
            },
            _ => {},
        }
        let n = states[i].queue.len() as int;
        assert(states[j].queue.take(n) =~= states[j].queue.take(states[k].queue.len() as int).take(n));
    } else {
        assert(states[j].queue.take(states[i].queue.len() as int) =~= states[i].queue);
    }
}

/// The loop receives nothing from a fatally closed runner, and a stopped
/// loop takes no further turn: after a shutdown only the handle's sends
/// (which then stay queued for good) can follow.
pub proof fn law_stopped_and_closed_loops_wait<C, R>(old: LoopState<C, R>, new: LoopState<C, R>, event: LoopEvent<C, R>)
    requires
        loop_step(old, new, event),
    ensures
        old.fatally_closed ==> !(event is Received),
        !old.running ==> event is Sent && !new.running,
{
}

} // verus!
