//! The watch channel: one producer, many consumers, only the latest value
//! observable.
//!
//! The shared state is an explicit [`Shared`] value.  The handle types carry
//! only their private data: a [`Receiver`] remembers the version it saw
//! last, a [`Sender`] is the capability to publish and to close.  Every
//! operation takes the shared state as an argument and promises, through
//! [`crate::state::step`], exactly how it changes it.
//!
//! The waiting itself — suspending until a publish or until the last
//! consumer is gone — needs a wakeup primitive and an executor, which live
//! outside the verified library.  A waiting shell drives these functions:
//! `maybe_changed` is the complete check a consumer runs before and after
//! registering for a wakeup, and `changed` is the resolution step once an
//! update or the closing of the channel is there to observe.

use vstd::pervasive::cloned;
use vstd::prelude::*;

use crate::errors::RecvError;
use crate::errors::SendError;
use crate::observe;
use crate::observe::Observation;
use crate::state::Op;
use crate::state::SharedView;
use crate::state::step;
use crate::word;

verus! {

/// The state jointly owned by all handles of one channel: the current
/// value, the packed version word, and the count of live consumers.
#[derive(Debug)]
pub struct Shared<T> {
    /// The most recently published value.
    value: T,
    /// The packed word: bit 0 is the closed flag, the rest the version.
    packed: u64,
    /// The exact number of live `Receiver` handles.
    rx_count: u64,
}

impl<T> View for Shared<T> {
    type V = SharedView<T>;

    closed spec fn view(&self) -> SharedView<T> {
        SharedView {
            value: self.value,
            version: word::spec_version(self.packed) as int,
            closed: word::spec_closed(self.packed),
            receivers: self.rx_count as int,
        }
    }
}

/// The producing half: publishes values, observes consumer exhaustion, and
/// closes the channel when destroyed.  Exactly one exists per channel.
#[derive(Debug)]
pub struct Sender;

/// A consuming half: remembers the last version it observed.  Any number
/// may exist; each duplicate is counted in the shared state.
#[derive(Debug)]
pub struct Receiver {
    /// The version component this consumer saw last (bit 0 always clear).
    last_seen: u64,
}

impl View for Receiver {
    type V = int;

    closed spec fn view(&self) -> int {
        self.last_seen as int
    }
}

/// Read access to the current value, scoped to the borrow of the shared
/// state it came from.
#[derive(Debug)]
pub struct Ref<'a, T> {
    inner: &'a T,
}

impl<'a, T> View for Ref<'a, T> {
    type V = T;

    closed spec fn view(&self) -> T {
        *self.inner
    }
}

impl<'a, T> Ref<'a, T> {
    /// The borrowed value itself.
    pub fn get(&self) -> (r: &T)
        ensures
            *r == self@,
    {
        self.inner
    }
}

/// What one check for a change hands back: nothing yet, a consumed change,
/// or the terminal error of a closed channel.
pub open spec fn poll_of(obs: Observation) -> Option<Result<(), RecvError>> {
    match obs {
        Observation::Changed => Some(Ok(())),
        Observation::ClosedNoUpdate => Some(Err(RecvError)),
        Observation::NoUpdateYet => None,
    }
}

/// Creates a watch channel holding `init`: the shared state (unclosed,
/// version 0, one live consumer), the sole sender, and the first receiver,
/// which has already seen version 0.
pub fn channel<T>(init: T) -> (r: (Shared<T>, Sender, Receiver))
    ensures
        r.0@ == (SharedView::<T> { value: init, version: 0, closed: false, receivers: 1 }),
        r.2@ == 0,
{
    proof {
        assert(0u64 & !1u64 == 0 && !(0u64 & 1 == 1)) by (bit_vector);
    }
    let shared = Shared { value: init, packed: 0, rx_count: 1 };
    (shared, Sender, Receiver { last_seen: 0 })
}

impl Sender {
    /// Publishes `value`: replaces the current value and advances the
    /// version, leaving the closed flag alone — unless no live consumer is
    /// left, in which case nothing changes and the value comes back inside
    /// the error.
    pub fn send<T>(&self, chan: &mut Shared<T>, value: T) -> (r: Result<(), SendError<T>>)
        requires
            old(chan)@.version <= u64::MAX - 3,
        ensures
            r matches Ok(()) ==> old(chan)@.receivers > 0 && final(chan)@ == step(
                old(chan)@,
                Op::Publish(value),
            ),
            r matches Err(e) ==> old(chan)@.receivers == 0 && e.inner == value && *final(chan)
                == *old(chan),
    {
        if chan.rx_count == 0 {
            return Err(SendError { inner: value });
        }
        chan.value = value;
        proof {
            word::lemma_version_shape(chan.packed);
        }
        chan.packed = word::bump_version(chan.packed);
        Ok(())
    }

    /// Publishes a value computed from the current one: `func` reads the
    /// value the channel holds and yields its replacement.  The version
    /// advances as for `send`; the count of consumers is not looked at.
    pub fn send_modify<T, F: FnOnce(&T) -> T>(&self, chan: &mut Shared<T>, func: F)
        requires
            old(chan)@.version <= u64::MAX - 3,
            call_requires(func, (&old(chan)@.value,)),
        ensures
            call_ensures(func, (&old(chan)@.value,), final(chan)@.value),
            final(chan)@ == step(old(chan)@, Op::Publish(final(chan)@.value)),
    {
        let replacement = func(&chan.value);
        chan.value = replacement;
        proof {
            word::lemma_version_shape(chan.packed);
        }
        chan.packed = word::bump_version(chan.packed);
    }

    /// Creates a new receiver on the same channel.  It is counted at once,
    /// and starts having seen the current version, so it does not report a
    /// change for a value published before it existed.
    pub fn subscribe<T>(&self, chan: &mut Shared<T>) -> (r: Receiver)
        requires
            old(chan)@.receivers < u64::MAX,
        ensures
            final(chan)@ == step(old(chan)@, Op::NewReceiver),
            r@ == old(chan)@.version,
    {
        chan.rx_count = chan.rx_count + 1;
        Receiver { last_seen: word::mask_version(chan.packed) }
    }

    /// Whether every consumer is gone: the condition on which a producer
    /// waiting for consumer exhaustion resolves.  A waiting shell checks
    /// this, registers for the all-consumers-gone wakeup, checks again, and
    /// only then suspends.
    pub fn closed<T>(&self, chan: &Shared<T>) -> (r: bool)
        ensures
            r == (chan@.receivers == 0),
    {
        chan.rx_count == 0
    }

    /// Destroys the sender: sets the closed flag, permanently, and leaves
    /// everything else alone.  Waiting consumers are woken by the shell so
    /// that they observe closure rather than hang.
    pub fn close<T>(self, chan: &mut Shared<T>)
        ensures
            final(chan)@ == step(old(chan)@, Op::Close),
    {
        chan.packed = word::set_closed(chan.packed);
    }
}

impl Receiver {
    /// Read access to the most recently published value.
    pub fn borrow<'a, T>(&self, chan: &'a Shared<T>) -> (r: Ref<'a, T>)
        ensures
            r@ == chan@.value,
    {
        Ref { inner: &chan.value }
    }

    /// One complete check for a change, exactly the observation protocol:
    /// a version unlike the last seen one is consumed and reported as a
    /// change; otherwise a closed channel is terminal; otherwise there is
    /// nothing yet and the caller must wait.  This is the check a waiting
    /// shell runs before registering for a wakeup, after registering, and
    /// once more after being woken.
    pub fn maybe_changed<T>(&mut self, chan: &Shared<T>) -> (r: Option<Result<(), RecvError>>)
        ensures
            final(self)@ == observe::spec_next_seen(chan@.version, old(self)@),
            r == poll_of(observe::spec_observe(chan@.version, chan@.closed, old(self)@)),
    {
        let (obs, next) = observe::observe(chan.packed, self.last_seen);
        self.last_seen = next;
        match obs {
            Observation::Changed => Some(Ok(())),
            Observation::ClosedNoUpdate => Some(Err(RecvError)),
            Observation::NoUpdateYet => None,
        }
    }

    /// The resolution of a wait for a change: callable once an update or
    /// the closing of the channel is there to observe, and then reports
    /// exactly one of the two.  Being woken by the value-changed signal
    /// guarantees the condition; a wakeup after which neither holds would
    /// be a protocol bug, and is ruled out here rather than handled.
    pub fn changed<T>(&mut self, chan: &Shared<T>) -> (r: Result<(), RecvError>)
        requires
            observe::spec_observe(chan@.version, chan@.closed, old(self)@)
                != Observation::NoUpdateYet,
        ensures
            final(self)@ == observe::spec_next_seen(chan@.version, old(self)@),
            Some(r) == poll_of(observe::spec_observe(chan@.version, chan@.closed, old(self)@)),
    {
        match self.maybe_changed(chan) {
            Some(ret) => ret,
            None => vstd::pervasive::unreached(),
        }
    }

    /// A wait for a change combined with borrowing and duplicating the
    /// fresh value: resolves to a copy of the current value exactly when
    /// `changed` reports a change, and fails exactly when it fails.
    pub fn recv<T: Clone>(&mut self, chan: &Shared<T>) -> (r: Result<T, RecvError>)
        requires
            observe::spec_observe(chan@.version, chan@.closed, old(self)@)
                != Observation::NoUpdateYet,
        ensures
            final(self)@ == observe::spec_next_seen(chan@.version, old(self)@),
            r matches Ok(v) ==> observe::spec_observe(chan@.version, chan@.closed, old(self)@)
                == Observation::Changed && cloned(chan@.value, v),
            r matches Err(_) ==> observe::spec_observe(chan@.version, chan@.closed, old(self)@)
                == Observation::ClosedNoUpdate,
    {
        match self.changed(chan) {
            Ok(()) => Ok(self.borrow(chan).get().clone()),
            Err(e) => Err(e),
        }
    }

    /// Duplicates this receiver: the copy is counted at once and has seen
    /// exactly what this one has, so it does not re-observe a value its
    /// source already consumed.
    pub fn duplicate<T>(&self, chan: &mut Shared<T>) -> (r: Receiver)
        requires
            old(chan)@.receivers < u64::MAX,
        ensures
            final(chan)@ == step(old(chan)@, Op::NewReceiver),
            r@ == self@,
    {
        chan.rx_count = chan.rx_count + 1;
        Receiver { last_seen: self.last_seen }
    }

    /// Destroys this receiver: the count goes down by one, and the result
    /// says whether this was the last one — the moment the one-shot
    /// all-consumers-gone wakeup must fire.
    pub fn unsubscribe<T>(self, chan: &mut Shared<T>) -> (r: bool)
        requires
            old(chan)@.receivers > 0,
        ensures
            final(chan)@ == step(old(chan)@, Op::DropReceiver),
            r == (final(chan)@.receivers == 0),
            r == (old(chan)@.receivers == 1),
    {
        chan.rx_count = chan.rx_count - 1;
        chan.rx_count == 0
    }
}

} // verus!
