//! A mutual-exclusion lock that suspends fibers instead of blocking threads.
//!
//! While a guard is out, the protected value is held by the guard and the
//! lock is empty; unlocking puts the (possibly changed) value back and wakes
//! the fibers that were waiting. A guard released while its holder panics
//! poisons the lock, and every later lock reports it.

use vstd::prelude::*;
use vstd::rwlock::*;
use crate::{in_coroutine, FullId, Step};
use crate::evented::in_coroutine_spec;
use crate::sync::broadcast;
use crate::sync::broadcast::append_woken;

verus! {

/// What one attempt to take the lock gives.
pub enum TryLock<T> {
    /// The lock was free: here is the value.
    Acquired(T),
    /// The lock was free but poisoned: here is the value all the same.
    Poisoned(T),
    /// Someone else holds the lock.
    WouldBlock,
}

/// What taking the lock from the state (`value`, `poisoned`) gives: the value
/// left in the lock and the outcome. A held lock (no value in it) refuses.
pub open spec fn lock_outcome<T>(value: Option<T>, poisoned: bool) -> (Option<T>, TryLock<T>) {
    match value {
        None => (value, TryLock::WouldBlock),
        Some(v) => (None, if poisoned {
            TryLock::Poisoned(v)
        } else {
            TryLock::Acquired(v)
        }),
    }
}

/// The state behind a lock: the value when nobody holds it, and the poison
/// flag.
pub struct MutexState<T> {
    value: Option<T>,
    poisoned: bool,
}

impl<T> MutexState<T> {
    /// The value in the lock; `None` while someone holds it.
    pub closed spec fn value(&self) -> Option<T> {
        self.value
    }

    /// Whether a holder has panicked.
    pub closed spec fn poisoned(&self) -> bool {
        self.poisoned
    }

    /// A free, unpoisoned lock holding `t`.
    pub fn new(t: T) -> (s: MutexState<T>)
        ensures
            s.value() == Some(t),
            !s.poisoned(),
    {
        MutexState { value: Some(t), poisoned: false }
    }

    /// Takes the lock if it is free; see `lock_outcome`.
    pub fn try_lock(&mut self) -> (r: TryLock<T>)
        ensures
            (final(self).value(), r) == lock_outcome(old(self).value(), old(self).poisoned()),
            final(self).poisoned() == old(self).poisoned(),
    {
        match self.value.take() {
            None => TryLock::WouldBlock,
            Some(v) => {
                if self.poisoned {
                    TryLock::Poisoned(v)
                } else {
                    TryLock::Acquired(v)
                }
            },
        }
    }

    /// Puts `v` back, freeing the lock; a holder that panicked poisons it.
    pub fn unlock(&mut self, v: T, panicking: bool)
        ensures
            final(self).value() == Some(v),
            final(self).poisoned() == (old(self).poisoned() || panicking),
    {
        self.value = Some(v);
        if panicking {
            self.poisoned = true;
        }
    }
}

/// The lock predicate of a mutex: it accepts every state, free or held,
/// poisoned or not.
pub struct AnyMutexState;

impl<T> RwLockPredicate<MutexState<T>> for AnyMutexState {
    open spec fn inv(self, v: MutexState<T>) -> bool {
        true
    }
}

/// A lock taken while poisoned: the guard is inside all the same.
pub struct PoisonError<G> {
    pub guard: G,
}

impl<G> PoisonError<G> {
    /// The guard carried by this error.
    pub closed spec fn guard(&self) -> G {
        self.guard
    }

    /// Takes out the guard: the lock is held.
    pub fn into_inner(self) -> (g: G)
        ensures
            g == self.guard(),
    {
        self.guard
    }
}

/// The result of taking a lock: a guard, possibly marked as poisoned.
pub type LockResult<G> = Result<G, PoisonError<G>>;

/// What one locking step gives, once the lock gave `outcome` (carrying the
/// guard of a lock that was free): the guard, or a `PoisonError` with the
/// guard when the lock was poisoned. On a held lock the step asks to `Retry`
/// when, inside a coroutine, a release was announced (`notified`), and to
/// `Park` otherwise.
pub open spec fn lock_step_spec<G>(outcome: TryLock<G>, in_coroutine: bool, notified: bool) -> Step<
    LockResult<G>,
    (),
> {
    match outcome {
        TryLock::Acquired(g) => Step::Done(Ok(g)),
        TryLock::Poisoned(g) => Step::Done(Err(PoisonError { guard: g })),
        TryLock::WouldBlock => if in_coroutine && notified {
            Step::Retry(())
        } else {
            Step::Park(())
        },
    }
}

/// Decides one locking step from what the lock gave; see `lock_step_spec`.
pub fn lock_step<G>(outcome: TryLock<G>, in_coroutine: bool, notified: bool) -> (r: Step<
    LockResult<G>,
    (),
>)
    ensures
        r == lock_step_spec(outcome, in_coroutine, notified),
{
    match outcome {
        TryLock::Acquired(g) => Step::Done(Ok(g)),
        TryLock::Poisoned(g) => Step::Done(Err(PoisonError { guard: g })),
        TryLock::WouldBlock => {
            if in_coroutine && notified {
                Step::Retry(())
            } else {
                Step::Park(())
            }
        },
    }
}

/// A mutual-exclusion lock usable from coroutines and plain threads alike.
pub struct Mutex<T> {
    inner: RwLock<MutexState<T>, AnyMutexState>,
    broadcast_rx: broadcast::Receiver,
    broadcast_tx: broadcast::Sender,
}

/// Proof of holding a `Mutex`, with the protected value. Release it with
/// `unlock`.
pub struct MutexGuard<'a, T> {
    lock: &'a RwLock<MutexState<T>, AnyMutexState>,
    value: T,
    broadcast_tx: broadcast::Sender,
}

impl<T> Mutex<T> {
    #[verifier::type_invariant]
    closed spec fn waits_on_releases(&self) -> bool {
        self.broadcast_rx.channel() == self.broadcast_tx.channel()
    }

    /// The lock state this mutex guards.
    pub closed spec fn state_lock(&self) -> RwLock<MutexState<T>, AnyMutexState> {
        self.inner
    }

    /// The broadcast channel on which this mutex announces releases.
    pub closed spec fn release_channel(&self) -> broadcast::SharedNotify {
        self.broadcast_tx.channel()
    }

    /// A free, unpoisoned mutex holding `t`.
    pub fn new(t: T) -> (m: Mutex<T>) {
        let (btx, brx) = broadcast::notify_channel();
        Mutex {
            inner: RwLock::new(MutexState::new(t), Ghost(AnyMutexState)),
            broadcast_tx: btx,
            broadcast_rx: brx,
        }
    }

    /// A receiver to wait on for releases of this mutex, for the calls of
    /// `lock` by one locker.
    pub fn waiter(&self) -> (w: broadcast::Receiver)
        ensures
            w.channel() == self.release_channel(),
    {
        proof {
            use_type_invariant(self);
        }
        self.broadcast_rx.clone()
    }

    /// Tries the lock once: the outcome is `lock_outcome` of the state found
    /// in the lock, handed back as a ghost value.
    fn try_lock(&self) -> (r: (TryLock<T>, Ghost<MutexState<T>>))
        ensures
            r.0 == lock_outcome(r.1@.value(), r.1@.poisoned()).1,
    {
        let (mut state, handle) = self.inner.acquire_write();
        let ghost found = state;
        let r = state.try_lock();
        handle.release_write(state);
        (r, Ghost(found))
    }

    /// Puts each value a lock attempt took into a guard of this mutex,
    /// keeping the outcome's kind.
    fn guard_outcome<'a>(&'a self, outcome: TryLock<T>) -> (r: TryLock<MutexGuard<'a, T>>)
        ensures
            outcome matches TryLock::Acquired(v) ==> r matches TryLock::Acquired(g) && g.value() == v
                && g.lock_of() == self.state_lock() && g.release_channel() == self.release_channel(),
            outcome matches TryLock::Poisoned(v) ==> r matches TryLock::Poisoned(g) && g.value() == v
                && g.lock_of() == self.state_lock() && g.release_channel() == self.release_channel(),
            outcome is WouldBlock ==> r is WouldBlock,
    {
        match outcome {
            TryLock::Acquired(v) => TryLock::Acquired(self.guard(v)),
            TryLock::Poisoned(v) => TryLock::Poisoned(self.guard(v)),
            TryLock::WouldBlock => TryLock::WouldBlock,
        }
    }

    /// One step of taking the lock on behalf of `me`, waiting on `waiter`.
    ///
    /// Done with a guard when the lock was free, as a `PoisonError` carrying
    /// the guard when it was free but poisoned. When someone else holds it,
    /// inside a coroutine `me` is registered to be woken by the next release
    /// and the step asks to `Park`, or to `Retry` when a release came in
    /// meanwhile; outside a coroutine it asks to `Park` (yield the thread).
    pub fn lock<'a>(&'a self, waiter: &mut broadcast::Receiver, me: FullId) -> (r: Step<
        LockResult<MutexGuard<'a, T>>,
        (),
    >)
        ensures
            final(waiter).channel() == old(waiter).channel(),
            r is Retry ==> !me.loop_.is_none(),
            me.loop_.is_none() ==> *final(waiter) == *old(waiter),
            exists|o: TryLock<MutexGuard<'a, T>>, n: bool|
                r == #[trigger] lock_step_spec(o, in_coroutine_spec(me), n),
            r matches Step::Done(Ok(g)) ==> g.lock_of() == self.state_lock()
                && g.release_channel() == self.release_channel(),
            r matches Step::Done(Err(e)) ==> e.guard().lock_of() == self.state_lock()
                && e.guard().release_channel() == self.release_channel(),
    {
        let in_coro = in_coroutine(me.loop_);
        if in_coro {
            waiter.reset();
        }
        let (taken, _) = self.try_lock();
        let outcome = self.guard_outcome(taken);
        let notified = match outcome {
            TryLock::WouldBlock => in_coro && waiter.wait(me),
            _ => false,
        };
        let r = lock_step(outcome, in_coro, notified);
        assert(r == lock_step_spec(outcome, in_coroutine_spec(me), notified));
        r
    }

    fn guard<'a>(&'a self, v: T) -> (g: MutexGuard<'a, T>)
        ensures
            g.lock_of() == self.state_lock(),
            g.release_channel() == self.release_channel(),
            g.value() == v,
    {
        MutexGuard { lock: &self.inner, value: v, broadcast_tx: self.broadcast_tx.clone() }
    }
}

impl<'a, T> MutexGuard<'a, T> {
    /// The lock state this guard holds.
    pub closed spec fn lock_of(&self) -> RwLock<MutexState<T>, AnyMutexState> {
        *self.lock
    }

    /// The broadcast channel on which releasing this guard is announced.
    pub closed spec fn release_channel(&self) -> broadcast::SharedNotify {
        self.broadcast_tx.channel()
    }

    /// The protected value.
    pub closed spec fn value(&self) -> T {
        self.value
    }

    /// Reads the protected value.
    pub fn get(&self) -> (r: &T)
        ensures
            *r == self.value(),
    {
        &self.value
    }

    /// Gives mutable access to the protected value.
    pub fn get_mut(&mut self) -> (r: &mut T)
        ensures
            *r == old(self).value(),
            final(self).value() == *final(r),
            final(self).lock_of() == old(self).lock_of(),
    {
        &mut self.value
    }

    /// Replaces the protected value, returning the previous one.
    pub fn replace(&mut self, v: T) -> (prev: T)
        ensures
            prev == old(self).value(),
            final(self).value() == v,
            final(self).lock_of() == old(self).lock_of(),
    {
        let mut v = v;
        std::mem::swap(&mut self.value, &mut v);
        v
    }

    /// Releases the lock, putting the value back and notifying the fibers
    /// waiting for it (appended to `woken`). Pass `panicking` when the holder
    /// is unwinding from a panic: the lock is then poisoned.
    pub fn unlock(self, panicking: bool, woken: &mut Vec<FullId>)
        ensures
            old(woken)@.is_prefix_of(final(woken)@),
    {
        let MutexGuard { lock, value, broadcast_tx } = self;
        let (mut state, handle) = lock.acquire_write();
        state.unlock(value, panicking);
        handle.release_write(state);
        let more = broadcast_tx.notify();
        append_woken(woken, more);
    }
}

/// Mutual exclusion: once the lock is taken, a second attempt is refused
/// until it is released.
pub proof fn lemma_mutual_exclusion<T>(v: T, poisoned: bool)
    ensures
        lock_outcome(lock_outcome(Some(v), poisoned).0, poisoned).1 is WouldBlock,
{
}

/// What a holder puts back is what the next holder gets: releasing with `w`
/// and locking again yields `w`, marked poisoned exactly when the lock is.
pub proof fn lemma_lock_reads_last_release<T>(w: T, poisoned: bool)
    ensures
        lock_outcome(Some(w), poisoned) == (None::<T>, if poisoned {
            TryLock::Poisoned(w)
        } else {
            TryLock::Acquired(w)
        }),
{
}

} // verus!
