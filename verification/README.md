# splinter

Orchestration of Discord gateway shards on top of twilight.

`src/` is the verified library (Verus). It holds the decisions of the
system as state machines over plain values, with their contracts and laws:

- `range`: sharding ranges, shard identifiers and the shards a range boots;
- `config`: the reconnect strategy trait and the provided strategies;
- `close_code`, `event`, `gateway`: close codes and which are fatal, the
  dispatch event type of a raw payload, close frames and shard statuses;
- `signal`, `error`: runner signals, reconnect causes and error types, with
  the texts that app/ displays them by;
- `runner`: what a shard runner decides on a close, a receive error or a
  text message, and its reconnect bookkeeping;
- `daemon`: how a shard daemon reacts to runner signals and handle requests,
  and which of them it listens to in a turn of its loop;
- `daemon_loop`: the daemon's loop as a transition system, with the laws
  that hold of every run (requests taken in send order, none while busy);
- `registry`: the manager's handles, at most one per shard, in a hash map.

`app/` is the asynchronous shell: the shard manager, daemons and handles,
the runners that drive twilight shards, the type-erased queue and the event
stream. It owns sockets, channels, locks and tasks, and converts twilight's
types to the library's. The decisions of the runner, the daemon and the
registry come from the library; app/ keeps a few small ones of its own: a
handle waits for an active or fatally closed state in `identified`, and the
manager closes a handle that a new registration replaced.
