//! The tokio notification primitive, as the verified code sees it.
//!
//! `Notify` is opaque to Verus: its state sits behind interior mutability,
//! so nothing about the waiters it holds can be stated of a shared value.
//! A [`Signal`] is a handle on a shared `Notify` that counts, as ghost
//! state, the `notify_waiters` calls made through it; waking a notifier is
//! only possible through [`Signal::wake`], so the count of each handle is
//! exactly the number of wakes that the code holding it performed.
use vstd::prelude::*;

use std::sync::Arc;
use tokio::sync::futures::Notified;
use tokio::sync::Notify;

verus! {

/// Makes `tokio::sync::Notify` usable in signatures and fields.
#[verifier::external_type_specification]
#[verifier::external_body]
pub struct ExNotify(Notify);

/// Makes the future returned by `Notify::notified` usable in signatures.
#[verifier::external_type_specification]
#[verifier::external_body]
pub struct ExNotified<'a>(Notified<'a>);

/// `Notify::new` builds a notifier that holds no permit and no waiters.
/// Nothing of that can be seen through the opaque type, so no clause is
/// given.
pub assume_specification[ Notify::new ]() -> Notify;

/// The notifier that a `Notified` future waits on: tokio's future keeps a
/// reference to the notifier it was made from.
pub uninterp spec fn notifier_of(f: Notified<'_>) -> Notify;

/// `Notify::notified` returns the future that completes on the next
/// notification of `notify`; from its creation on it receives every
/// `notify_waiters` call. The contract claims only that the future waits
/// on `notify`: tokio builds it with `notify: self`.
pub assume_specification<'a>[ Notify::notified ](notify: &'a Notify) -> (f: Notified<'a>)
    ensures
        notifier_of(f) == *notify,
;

/// Calls `Notify::notify_waiters`: wakes every `Notified` future of
/// `notify` that exists at the time of the call, and stores no permit for
/// later ones. Its effect is not visible through the opaque type, so no
/// clause is given. The call may unwind: tokio wakes the collected wakers
/// after releasing its lock, and a waker may panic.
#[verifier::external_body]
fn wake_waiters(notify: &Notify) {
    notify.notify_waiters();
}

/// A handle on a shared notifier, with the number of times the code
/// holding this handle has woken the notifier's waiters through it.
pub struct Signal {
    notify: Arc<Notify>,
    wakes: Ghost<nat>,
    creator: Ghost<bool>,
}

impl Signal {
    /// The notifier that this handle wakes.
    pub closed spec fn notify(&self) -> Notify {
        *self.notify
    }

    /// How many times the notifier's waiters were woken through this
    /// handle.
    pub closed spec fn wakes(&self) -> nat {
        self.wakes@
    }

    /// Whether this handle is the one that [`Signal::new`] made together
    /// with its notifier. Only `Signal::new` makes such a handle, and a
    /// handle cannot be duplicated, so two creator handles held at the same
    /// time are on two different notifiers.
    pub closed spec fn is_creator(&self) -> bool {
        self.creator@
    }

    /// The creator handle of a new notifier, not woken yet.
    pub fn new() -> (signal: Self)
        ensures
            signal.wakes() == 0,
            signal.is_creator(),
    {
        Signal { notify: Arc::new(Notify::new()), wakes: Ghost(0), creator: Ghost(true) }
    }

    /// A handle on the shared notifier `notify`, through which it has not
    /// been woken yet.
    pub fn from_shared(notify: Arc<Notify>) -> (signal: Self)
        ensures
            signal.notify() == *notify,
            signal.wakes() == 0,
            !signal.is_creator(),
    {
        Signal { notify, wakes: Ghost(0), creator: Ghost(false) }
    }

    /// Another handle on the same notifier, through which it has not been
    /// woken yet.
    pub fn handle(&self) -> (signal: Self)
        ensures
            signal.notify() == self.notify(),
            signal.wakes() == 0,
            !signal.is_creator(),
    {
        Signal { notify: self.notify.clone(), wakes: Ghost(0), creator: Ghost(false) }
    }

    /// The shared notifier itself.
    pub fn shared(&self) -> (notify: Arc<Notify>)
        ensures
            *notify == self.notify(),
    {
        self.notify.clone()
    }

    /// The notifier, to wait on it.
    pub fn as_notify(&self) -> (notify: &Notify)
        ensures
            *notify == self.notify(),
    {
        &*self.notify
    }

    /// Wakes every current waiter of the notifier, once.
    pub fn wake(&mut self)
        ensures
            final(self).notify() == old(self).notify(),
            final(self).wakes() == old(self).wakes() + 1,
            final(self).is_creator() == old(self).is_creator(),
    {
        wake_waiters(&self.notify);
        self.wakes = Ghost(self.wakes@ + 1);
    }
}

} // verus!
