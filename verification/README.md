# tokio_notify_aggregator

Aggregates several tokio `Notify` instances into one source of
notifications: waiting on the aggregator ends when any registered `Notify`
is notified, and dropping the aggregator stops the tasks that relay them.

- `src/` is the library, verified with Verus:
  - `signal.rs`: how verified code sees tokio's `Notify` (the trusted
    items), and `Signal`, a handle on a shared `Notify` that counts, as ghost
    state, the wakes made through it; waking is only possible through it;
  - `forwarder.rs`: the per-source relay as a state machine, with its laws
    over those counts (each source wakeup before cancellation wakes the
    aggregate signal through the forwarder's handle exactly once, the source
    and cancellation signals are never woken, cancellation is final);
  - `aggregator.rs`: the aggregate and cancellation signals, the forwarders
    that register sources, and the cancellation of the forwarders.
- Which notifier a handle points to is not part of the model: that two
  signals are distinct, or that no other code wakes a notifier, is not
  stated.
- `app/` is the tokio front: it spawns one task per registered `Notify`,
  which awaits the source and the cancellation signal at once and hands
  the winner to the verified forwarder, and it cancels the forwarders when
  the aggregator is dropped.
- `tests/` runs the library on a tokio runtime.
