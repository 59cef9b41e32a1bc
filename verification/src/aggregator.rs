//! The aggregator: one signal that any registered source can trigger, and
//! one signal that stops every forwarder it made.
use vstd::prelude::*;

use std::sync::Arc;
use tokio::sync::futures::Notified;
use tokio::sync::Notify;

use crate::forwarder::{Forwarder, Wakeup};
use crate::signal::{notifier_of, Signal};

verus! {

/// Aggregates several `Notify` instances into what behaves as a single
/// `Notify`: waiting on [`NotifyAggregator::notified`] ends on a
/// notification of any registered source.
///
/// Registering a source means running the [`Forwarder`] that
/// [`NotifyAggregator::forwarder`] makes for it.
/// [`NotifyAggregator::cancel_forwarders`] wakes the cancellation signal,
/// which tells every such forwarder to stop; the owner of an aggregator
/// calls it when the aggregator goes away. Clones share both signals.
pub struct NotifyAggregator {
    composite_notifier: Signal,
    cancel_notifier: Signal,
}

impl NotifyAggregator {
    /// This handle on the signal that the aggregator's waiters wait on, and
    /// that every registered source triggers.
    pub closed spec fn composite(&self) -> Signal {
        self.composite_notifier
    }

    /// This handle on the signal that stops every forwarder made by the
    /// aggregator.
    pub closed spec fn cancellation(&self) -> Signal {
        self.cancel_notifier
    }

    /// A new aggregator, with no registered source: two new signals, woken
    /// by nothing yet, each held through the handle that created it (so the
    /// two are different notifiers).
    pub fn new() -> (aggregator: Self)
        ensures
            aggregator.composite().wakes() == 0,
            aggregator.cancellation().wakes() == 0,
            aggregator.composite().is_creator(),
            aggregator.cancellation().is_creator(),
    {
        NotifyAggregator { composite_notifier: Signal::new(), cancel_notifier: Signal::new() }
    }

    /// The future that waits for a notification relayed from any
    /// registered source: it waits on the aggregate signal.
    pub fn notified(&self) -> (f: Notified<'_>)
        ensures
            notifier_of(f) == self.composite().notify(),
    {
        self.composite_notifier.as_notify().notified()
    }

    /// The forwarder that registers `notifier`: it relays the
    /// notifications of `notifier` to the aggregator's waiters until the
    /// aggregator is cancelled.
    pub fn forwarder(&self, notifier: Arc<Notify>) -> (forwarder: Forwarder)
        ensures
            forwarder.source_signal().notify() == *notifier,
            forwarder.target_signal().notify() == self.composite().notify(),
            forwarder.cancel_signal().notify() == self.cancellation().notify(),
            forwarder.source_signal().wakes() == 0,
            forwarder.target_signal().wakes() == 0,
            forwarder.cancel_signal().wakes() == 0,
            forwarder@.history == Seq::<Wakeup>::empty(),
            forwarder@.relayed == 0,
            !forwarder@.stopped,
    {
        Forwarder::new(notifier, self.composite_notifier.shared(), self.cancel_notifier.shared())
    }

    /// One forwarder for each of `notifiers`, in the same order: the
    /// forwarders that register them all.
    pub fn forwarders(&self, notifiers: &Vec<Arc<Notify>>) -> (forwarders: Vec<Forwarder>)
        ensures
            forwarders.len() == notifiers.len(),
            forall|i: int|
                0 <= i < notifiers.len() ==> {
                    &&& (#[trigger] forwarders[i]).source_signal().notify() == *notifiers[i]
                    &&& forwarders[i].target_signal().notify() == self.composite().notify()
                    &&& forwarders[i].cancel_signal().notify() == self.cancellation().notify()
                    &&& forwarders[i].source_signal().wakes() == 0
                    &&& forwarders[i].target_signal().wakes() == 0
                    &&& forwarders[i].cancel_signal().wakes() == 0
                    &&& forwarders[i]@.history == Seq::<Wakeup>::empty()
                    &&& forwarders[i]@.relayed == 0
                    &&& !forwarders[i]@.stopped
                },
    {
        let mut forwarders: Vec<Forwarder> = Vec::new();
        for i in 0..notifiers.len()
            invariant
                forwarders.len() == i,
                forall|k: int|
                    0 <= k < i ==> {
                        &&& (#[trigger] forwarders[k]).source_signal().notify() == *notifiers[k]
                        &&& forwarders[k].target_signal().notify() == self.composite().notify()
                        &&& forwarders[k].cancel_signal().notify()
                            == self.cancellation().notify()
                        &&& forwarders[k].source_signal().wakes() == 0
                        &&& forwarders[k].target_signal().wakes() == 0
                        &&& forwarders[k].cancel_signal().wakes() == 0
                        &&& forwarders[k]@.history == Seq::<Wakeup>::empty()
                        &&& forwarders[k]@.relayed == 0
                        &&& !forwarders[k]@.stopped
                    },
        {
            let forwarder = self.forwarder(notifiers[i].clone());
            forwarders.push(forwarder);
        }
        forwarders
    }

    /// Wakes every forwarder that waits on the cancellation signal, so
    /// that it stops: the cancellation signal is woken once through this
    /// aggregator's handle, and nothing is woken through its handle on the
    /// aggregate signal.
    pub fn cancel_forwarders(&mut self)
        ensures
            final(self).cancellation().notify() == old(self).cancellation().notify(),
            final(self).cancellation().wakes() == old(self).cancellation().wakes() + 1,
            final(self).cancellation().is_creator() == old(self).cancellation().is_creator(),
            final(self).composite() == old(self).composite(),
    {
        self.cancel_notifier.wake();
    }
}

impl Clone for NotifyAggregator {
    /// New handles on the same two signals.
    fn clone(&self) -> (copy: Self)
        ensures
            copy.composite().notify() == self.composite().notify(),
            copy.cancellation().notify() == self.cancellation().notify(),
            copy.composite().wakes() == 0,
            copy.cancellation().wakes() == 0,
            !copy.composite().is_creator(),
            !copy.cancellation().is_creator(),
    {
        NotifyAggregator {
            composite_notifier: self.composite_notifier.handle(),
            cancel_notifier: self.cancel_notifier.handle(),
        }
    }
}

impl Default for NotifyAggregator {
    /// The same as [`NotifyAggregator::new`].
    fn default() -> (aggregator: Self)
        ensures
            aggregator.composite().wakes() == 0,
            aggregator.cancellation().wakes() == 0,
            aggregator.composite().is_creator(),
            aggregator.cancellation().is_creator(),
    {
        Self::new()
    }
}

} // verus!
