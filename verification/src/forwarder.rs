//! The forwarding task that relays one source's notifications to an
//! aggregator, as a state machine driven by the wakeups of its wait.
//!
//! A forwarder waits on two signals at once: its source, and the
//! aggregator's cancellation signal. Each time the wait ends, whoever runs
//! the wait hands the winning signal to [`Forwarder::on_wakeup`], which
//! relays a source notification to the aggregate signal, or stops for good
//! once cancellation has been seen, and says whether to wait again.
use vstd::prelude::*;

use std::sync::Arc;
use tokio::sync::Notify;

use crate::signal::Signal;

verus! {

/// The signal that ended a forwarder's wait.
#[derive(PartialEq, Eq, Structural, Clone, Copy, Debug)]
pub enum Wakeup {
    /// The source notifier was notified.
    Source,
    /// The aggregator signalled that its forwarders must stop.
    Cancel,
}

/// What the forwarder's driver does after a wakeup.
#[derive(PartialEq, Eq, Structural, Clone, Copy, Debug)]
pub enum Directive {
    /// Wait on both signals again.
    Continue,
    /// End the forwarding task.
    Exit,
}

/// Whether a cancellation is among the wakeups `history`.
pub open spec fn cancelled(history: Seq<Wakeup>) -> bool {
    history.contains(Wakeup::Cancel)
}

/// The number of source wakeups in `history` that come before its first
/// cancellation: the leading run of `Wakeup::Source`.
pub open spec fn relayed_before_cancel(history: Seq<Wakeup>) -> nat
    decreases history.len(),
{
    if history.len() == 0 || history[0] == Wakeup::Cancel {
        0
    } else {
        1 + relayed_before_cancel(history.drop_first())
    }
}

/// The abstract state of a forwarder: every wakeup it was handed, in
/// order, the number of times it woke the aggregate signal's waiters
/// through its handle on that signal, and whether it has stopped.
pub struct ForwarderView {
    pub history: Seq<Wakeup>,
    pub relayed: nat,
    pub stopped: bool,
}

struct RelayState {
    target: Signal,
    stopped: bool,
    history: Ghost<Seq<Wakeup>>,
}

impl RelayState {
    /// Records `wakeup`, and wakes the target while not stopped on a
    /// source wakeup.
    fn step(&mut self, wakeup: Wakeup)
        ensures
            final(self).history@ == old(self).history@.push(wakeup),
            final(self).stopped == (old(self).stopped || wakeup == Wakeup::Cancel),
            final(self).target.notify() == old(self).target.notify(),
            final(self).target.wakes() == old(self).target.wakes() + (if !old(self).stopped
                && wakeup == Wakeup::Source {
                1int
            } else {
                0int
            }),
    {
        if !self.stopped && wakeup == Wakeup::Source {
            self.target.wake();
        } else {
            self.stopped = true;
        }
        self.history = Ghost(self.history@.push(wakeup));
    }
}

/// The state of the task that relays the notifications of one source to an
/// aggregator.
pub struct Forwarder {
    source: Signal,
    cancel: Signal,
    state: RelayState,
}

impl View for Forwarder {
    type V = ForwarderView;

    closed spec fn view(&self) -> ForwarderView {
        ForwarderView {
            history: self.state.history@,
            relayed: self.state.target.wakes(),
            stopped: self.state.stopped,
        }
    }
}

impl Forwarder {
    #[verifier::type_invariant]
    spec fn relays_until_cancelled(self) -> bool {
        &&& self.state.stopped == cancelled(self.state.history@)
        &&& self.state.target.wakes() == relayed_before_cancel(self.state.history@)
        &&& self.source.wakes() == 0
        &&& self.cancel.wakes() == 0
    }

    /// The handle on the notifier whose notifications this forwarder
    /// relays; the forwarder only waits on it.
    pub closed spec fn source_signal(&self) -> Signal {
        self.source
    }

    /// The handle on the notifier whose waiters a relayed notification
    /// wakes.
    pub closed spec fn target_signal(&self) -> Signal {
        self.state.target
    }

    /// The handle on the notifier whose notification stops this forwarder;
    /// the forwarder only waits on it.
    pub closed spec fn cancel_signal(&self) -> Signal {
        self.cancel
    }

    /// A forwarder from `source` to `target` that stops on `cancel`, which
    /// has seen no wakeup yet.
    pub fn new(source: Arc<Notify>, target: Arc<Notify>, cancel: Arc<Notify>) -> (forwarder: Self)
        ensures
            forwarder.source_signal().notify() == *source,
            forwarder.target_signal().notify() == *target,
            forwarder.cancel_signal().notify() == *cancel,
            forwarder.source_signal().wakes() == 0,
            forwarder.target_signal().wakes() == 0,
            forwarder.cancel_signal().wakes() == 0,
            forwarder@.history == Seq::<Wakeup>::empty(),
            forwarder@.relayed == 0,
            !forwarder@.stopped,
    {
        Forwarder {
            source: Signal::from_shared(source),
            cancel: Signal::from_shared(cancel),
            state: RelayState {
                target: Signal::from_shared(target),
                stopped: false,
                history: Ghost(Seq::empty()),
            },
        }
    }

    /// The notifier to wait on for notifications to relay.
    pub fn source(&self) -> (notify: &Notify)
        ensures
            *notify == self.source_signal().notify(),
    {
        self.source.as_notify()
    }

    /// The notifier to wait on for cancellation.
    pub fn cancellation(&self) -> (notify: &Notify)
        ensures
            *notify == self.cancel_signal().notify(),
    {
        self.cancel.as_notify()
    }

    /// The cancellation notifier itself, to wait on it from before the
    /// forwarder starts running.
    pub fn cancellation_shared(&self) -> (notify: Arc<Notify>)
        ensures
            *notify == self.cancel_signal().notify(),
    {
        self.cancel.shared()
    }

    /// Whether the forwarder has seen cancellation and relays no more.
    pub fn is_stopped(&self) -> (stopped: bool)
        ensures
            stopped == self@.stopped,
            stopped == cancelled(self@.history),
    {
        proof {
            use_type_invariant(self);
        }
        self.state.stopped
    }

    /// Handles the wakeup that ended the forwarder's wait, and returns the
    /// forwarder as it is afterwards: while the forwarder has not seen
    /// cancellation, a source wakeup wakes every current waiter of the
    /// target signal once, through the forwarder's handle on it, and the
    /// forwarder waits again; a cancellation stops it. A stopped forwarder
    /// relays nothing, and nothing is woken through the forwarder's
    /// handles on the source and cancellation signals.
    pub fn on_wakeup(self, wakeup: Wakeup) -> (next: (Forwarder, Directive))
        ensures
            next.0@.history == self@.history.push(wakeup),
            next.0@.relayed == relayed_before_cancel(next.0@.history),
            next.0@.relayed == next.0.target_signal().wakes(),
            next.0@.stopped == cancelled(next.0@.history),
            next.0@.stopped == (self@.stopped || wakeup == Wakeup::Cancel),
            next.0.target_signal().wakes() == self.target_signal().wakes() + (if !self@.stopped
                && wakeup == Wakeup::Source {
                1int
            } else {
                0int
            }),
            next.0.target_signal().notify() == self.target_signal().notify(),
            next.0.source_signal() == self.source_signal(),
            next.0.cancel_signal() == self.cancel_signal(),
            next.1 == (if next.0@.stopped {
                Directive::Exit
            } else {
                Directive::Continue
            }),
    {
        proof {
            use_type_invariant(&self);
            lemma_relayed_after(self.state.history@, wakeup);
        }
        let Forwarder { source, cancel, mut state } = self;
        state.step(wakeup);
        let directive = if state.stopped {
            Directive::Exit
        } else {
            Directive::Continue
        };
        (Forwarder { source, cancel, state }, directive)
    }
}

/// How one more wakeup changes the count of relayed notifications.
proof fn lemma_relayed_after(history: Seq<Wakeup>, wakeup: Wakeup)
    ensures
        cancelled(history.push(wakeup)) == (cancelled(history) || wakeup == Wakeup::Cancel),
        relayed_before_cancel(history.push(wakeup)) == relayed_before_cancel(history) + (
        if !cancelled(history) && wakeup == Wakeup::Source {
            1int
        } else {
            0int
        }),
    decreases history.len(),
{
    let pushed = history.push(wakeup);
    assert(pushed.last() == wakeup);
    if cancelled(history) {
        let i = choose|i: int| 0 <= i < history.len() && history[i] == Wakeup::Cancel;
        assert(pushed[i] == Wakeup::Cancel);
    }
    if wakeup == Wakeup::Cancel {
        assert(pushed[history.len() as int] == Wakeup::Cancel);
    }
    if cancelled(pushed) {
        let i = choose|i: int| 0 <= i < pushed.len() && pushed[i] == Wakeup::Cancel;
        if i < history.len() {
            assert(history[i] == Wakeup::Cancel);
        }
    }
    if history.len() == 0 {
        assert(pushed[0] == wakeup);
        assert(pushed.drop_first() =~= Seq::<Wakeup>::empty());
        assert(relayed_before_cancel(Seq::<Wakeup>::empty()) == 0);
    } else {
        assert(pushed[0] == history[0]);
        assert(pushed.drop_first() =~= history.drop_first().push(wakeup));
        lemma_relayed_after(history.drop_first(), wakeup);
        if history[0] == Wakeup::Cancel {
            assert(cancelled(history));
        } else {
            assert(cancelled(history.drop_first()) == cancelled(history)) by {
                if cancelled(history) {
                    let i = choose|i: int| 0 <= i < history.len() && history[i] == Wakeup::Cancel;
                    assert(history.drop_first()[i - 1] == Wakeup::Cancel);
                }
                if cancelled(history.drop_first()) {
                    let i = choose|i: int|
                        0 <= i < history.len() - 1 && history.drop_first()[i] == Wakeup::Cancel;
                    assert(history[i + 1] == Wakeup::Cancel);
                }
            }
        }
    }
}

/// Once a forwarder has seen cancellation, no later wakeup makes it relay
/// anything more, and it stays stopped.
pub proof fn cancellation_is_final(history: Seq<Wakeup>, later: Seq<Wakeup>)
    requires
        cancelled(history),
    ensures
        cancelled(history + later),
        relayed_before_cancel(history + later) == relayed_before_cancel(history),
    decreases later.len(),
{
    if later.len() == 0 {
        assert(history + later =~= history);
    } else {
        let front = later.drop_last();
        cancellation_is_final(history, front);
        assert(history + later =~= (history + front).push(later.last()));
        lemma_relayed_after(history + front, later.last());
    }
}

/// Until cancellation, every source wakeup of a forwarder is relayed to the
/// aggregate signal: as many relays as wakeups.
pub proof fn every_source_relayed_before_cancellation(history: Seq<Wakeup>)
    requires
        !cancelled(history),
    ensures
        relayed_before_cancel(history) == history.len(),
    decreases history.len(),
{
    if history.len() > 0 {
        assert(history[0] == Wakeup::Source) by {
            if history[0] == Wakeup::Cancel {
                assert(cancelled(history));
            }
        }
        assert(!cancelled(history.drop_first())) by {
            if cancelled(history.drop_first()) {
                let i = choose|i: int| 0 <= i < history.len() - 1 && history.drop_first()[i] == Wakeup::Cancel;
                assert(history[i + 1] == Wakeup::Cancel);
            }
        }
        every_source_relayed_before_cancellation(history.drop_first());
    }
}

/// A forwarder never relays more notifications than it was woken for.
pub proof fn relayed_at_most_wakeups(history: Seq<Wakeup>)
    ensures
        relayed_before_cancel(history) <= history.len(),
    decreases history.len(),
{
    if history.len() > 0 {
        relayed_at_most_wakeups(history.drop_first());
    }
}

} // verus!
