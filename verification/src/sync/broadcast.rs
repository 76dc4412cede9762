//! Broadcast notification: waking up many waiting fibers at once.
//!
//! A channel holds a round counter and the set of fibers waiting on it.
//! Each notification advances the round and hands the whole waiting set to
//! the caller, who wakes those fibers. A receiver remembers the last round it
//! saw; it has been notified when the round has moved since.

use vstd::prelude::*;
use vstd::rwlock::*;
use std::sync::Arc;
use crate::FullId;

verus! {

/// The round that follows `r`: the counter wraps around at `usize::MAX`.
pub open spec fn next_round(r: usize) -> usize {
    if r == usize::MAX {
        0
    } else {
        (r + 1) as usize
    }
}

/// The round reached from `r` after `k` notifications.
pub open spec fn rounds_after(r: usize, k: nat) -> usize
    decreases k,
{
    if k == 0 {
        r
    } else {
        next_round(rounds_after(r, (k - 1) as nat))
    }
}

/// A receiver that last saw round `prev` and now reads round `observed` has
/// been notified in between.
pub open spec fn observes(prev: usize, observed: usize) -> bool {
    prev != observed
}

/// Appends the fibers in `more` to the fibers to wake, `woken`.
pub fn append_woken(woken: &mut Vec<FullId>, more: Vec<FullId>)
    ensures
        final(woken)@ == old(woken)@ + more@,
        old(woken)@.is_prefix_of(final(woken)@),
{
    let mut more = more;
    woken.append(&mut more);
    assert(woken@.subrange(0, old(woken)@.len() as int) =~= old(woken)@);
}

/// A list of fibers to wake is a prefix of itself: a step that wakes nobody
/// keeps the list as it was.
pub proof fn lemma_woken_prefix_of_self(woken: Seq<FullId>)
    ensures
        woken.is_prefix_of(woken),
{
    assert(woken.subrange(0, woken.len() as int) =~= woken);
}

/// The shared state of a broadcast channel.
pub struct NotifyState {
    round: usize,
    wake_list: Vec<FullId>,
}

impl NotifyState {
    /// The current round.
    pub closed spec fn round(&self) -> usize {
        self.round
    }

    /// The fibers waiting for the next notification.
    pub closed spec fn waiters(&self) -> Set<FullId> {
        self.wake_list@.to_set()
    }

    /// Every waiting fiber is recorded once.
    pub closed spec fn wf(&self) -> bool {
        self.wake_list@.no_duplicates()
    }

    /// A fresh channel state: round 0, nobody waiting.
    pub fn new() -> (s: NotifyState)
        ensures
            s.wf(),
            s.round() == 0,
            s.waiters() == Set::<FullId>::empty(),
    {
        let s = NotifyState { round: 0, wake_list: Vec::new() };
        assert(s.wake_list@.to_set() =~= Set::<FullId>::empty());
        s
    }

    /// The current round.
    pub fn current_round(&self) -> (r: usize)
        ensures
            r == self.round(),
    {
        self.round
    }

    /// Adds `id` to the fibers to wake on the next notification.
    pub fn register(&mut self, id: FullId)
        requires
            old(self).wf(),
        ensures
            final(self).wf(),
            final(self).round() == old(self).round(),
            final(self).waiters() == old(self).waiters().insert(id),
    {
        let mut i: usize = 0;
        let n = self.wake_list.len();
        while i < n
            invariant
                n == self.wake_list.len(),
                0 <= i <= n,
                self.wake_list@ == old(self).wake_list@,
                self.round == old(self).round,
                old(self).wf(),
                forall|j: int| 0 <= j < i ==> self.wake_list@[j] != id,
            decreases n - i,
        {
            if self.wake_list[i] == id {
                proof {
                    assert(self.wake_list@.to_set().contains(id));
                    assert(self.wake_list@.to_set().insert(id) =~= self.wake_list@.to_set());
                }
                return;
            }
            i = i + 1;
        }
        let ghost before = self.wake_list@;
        self.wake_list.push(id);
        proof {
            assert(!before.contains(id));
            assert(self.wake_list@ == before.push(id));
            before.lemma_push_to_set_commute(id);
        }
    }

    /// Advances the round and hands over every waiting fiber, leaving none.
    pub fn notify(&mut self) -> (woken: Vec<FullId>)
        requires
            old(self).wf(),
        ensures
            final(self).wf(),
            final(self).round() == next_round(old(self).round()),
            final(self).waiters() == Set::<FullId>::empty(),
            woken@.to_set() == old(self).waiters(),
            woken@.no_duplicates(),
    {
        self.round = if self.round == usize::MAX {
            0
        } else {
            self.round + 1
        };
        let mut woken = Vec::new();
        std::mem::swap(&mut woken, &mut self.wake_list);
        assert(self.wake_list@.to_set() =~= Set::<FullId>::empty());
        woken
    }
}

/// The lock predicate of a shared broadcast state: it is well formed.
pub struct NotifyInv;

impl RwLockPredicate<NotifyState> for NotifyInv {
    open spec fn inv(self, v: NotifyState) -> bool {
        v.wf()
    }
}

/// The shared, locked broadcast state.
pub type SharedNotify = RwLock<NotifyState, NotifyInv>;

/// Sending end of a broadcast channel.
pub struct Sender {
    shared: Arc<SharedNotify>,
}

impl Sender {
    /// The channel this end belongs to.
    pub closed spec fn channel(&self) -> SharedNotify {
        *self.shared
    }

    /// Notifies every receiver: advances the round and returns the fibers
    /// that were waiting, each once. The caller wakes them.
    ///
    /// This does not block.
    pub fn notify(&self) -> (woken: Vec<FullId>)
        ensures
            woken@.no_duplicates(),
    {
        let (mut state, handle) = self.shared.acquire_write();
        let woken = state.notify();
        handle.release_write(state);
        woken
    }
}

impl Clone for Sender {
    /// Another sending end of the same channel.
    fn clone(&self) -> (r: Sender)
        ensures
            r.channel() == self.channel(),
    {
        Sender { shared: Arc::clone(&self.shared) }
    }
}

/// Receiving end of a broadcast channel.
pub struct Receiver {
    shared: Arc<SharedNotify>,
    prev_round: usize,
}

impl Receiver {
    /// The channel this end belongs to.
    pub closed spec fn channel(&self) -> SharedNotify {
        *self.shared
    }

    /// The last round this receiver has seen.
    pub closed spec fn prev_round(&self) -> usize {
        self.prev_round
    }

    /// Reads the channel's current round: the round of the state found in
    /// the lock, handed back as a ghost value.
    fn observe(&self) -> (r: (usize, Ghost<NotifyState>))
        ensures
            r.1@.wf(),
            r.0 == r.1@.round(),
    {
        let (state, handle) = self.shared.acquire_write();
        let ghost found = state;
        let r = state.current_round();
        handle.release_write(state);
        (r, Ghost(found))
    }

    /// Registers `me` as waiting and reads the round, in one step: from the
    /// state found in the lock to the state left there (both handed back as
    /// ghost values), `me` joins the waiters and the round stays.
    fn register_and_observe(&self, me: FullId) -> (r: (usize, Ghost<(NotifyState, NotifyState)>))
        ensures
            r.1@.0.wf(),
            r.1@.1.wf(),
            r.1@.1.waiters() == r.1@.0.waiters().insert(me),
            r.1@.1.round() == r.1@.0.round(),
            r.0 == r.1@.0.round(),
    {
        let (mut state, handle) = self.shared.acquire_write();
        let ghost found = state;
        state.register(me);
        let r = state.current_round();
        let ghost left = state;
        handle.release_write(state);
        (r, Ghost((found, left)))
    }

    /// Synchronises with the channel: notifications from before this call
    /// are no longer reported.
    pub fn reset(&mut self)
        ensures
            final(self).channel() == old(self).channel(),
    {
        let (r, _) = self.observe();
        self.prev_round = r;
    }

    /// One step of waiting for a notification on behalf of fiber `me`.
    ///
    /// Registers `me` to be woken by the next notification, then returns
    /// `true` (and takes in the new round) when the round has moved since this
    /// receiver last looked. On `false` the caller suspends `me` until it is
    /// woken, then calls `wait` again.
    pub fn wait(&mut self, me: FullId) -> (notified: bool)
        ensures
            final(self).channel() == old(self).channel(),
            notified == observes(old(self).prev_round(), final(self).prev_round()),
            !notified ==> final(self).prev_round() == old(self).prev_round(),
    {
        let (cur_round, _) = self.register_and_observe(me);
        if self.prev_round != cur_round {
            self.prev_round = cur_round;
            true
        } else {
            false
        }
    }

    /// Checks for a notification without waiting: returns `true` when the
    /// round has moved since this receiver last looked, and takes in the
    /// current round either way.
    pub fn try_wait(&mut self) -> (notified: bool)
        ensures
            final(self).channel() == old(self).channel(),
            notified == observes(old(self).prev_round(), final(self).prev_round()),
    {
        let prev_round = self.prev_round;
        let (r, _) = self.observe();
        self.prev_round = r;
        prev_round != self.prev_round
    }
}

impl Clone for Receiver {
    /// Another receiving end of the same channel, that has seen the same round.
    fn clone(&self) -> (r: Receiver)
        ensures
            r.channel() == self.channel(),
            r.prev_round() == self.prev_round(),
    {
        Receiver { shared: Arc::clone(&self.shared), prev_round: self.prev_round }
    }
}

/// Creates a broadcast channel. Its receiver starts at round 0, the round the
/// channel starts at, so it has seen no notification.
pub fn notify_channel() -> (ends: (Sender, Receiver))
    ensures
        ends.0.channel() == ends.1.channel(),
        ends.1.prev_round() == 0,
{
    let shared = Arc::new(RwLock::new(NotifyState::new(), Ghost(NotifyInv)));
    (Sender { shared: Arc::clone(&shared) }, Receiver { shared: shared, prev_round: 0 })
}

/// One notification is always seen by a receiver that had caught up with the
/// channel, and a receiver that had caught up sees nothing while no
/// notification is sent.
pub proof fn lemma_one_notify_is_observed(round: usize)
    ensures
        observes(round, next_round(round)),
        !observes(round, round),
{
}

/// After `k` notifications the round is the old one plus `k`, modulo the
/// counter's range.
pub proof fn lemma_rounds_after(r: usize, k: nat)
    ensures
        rounds_after(r, k) == (r + k) % (usize::MAX as int + 1),
    decreases k,
{
    if k > 0 {
        lemma_rounds_after(r, (k - 1) as nat);
        let m = usize::MAX as int + 1;
        let prev = rounds_after(r, (k - 1) as nat);
        assert(prev == (r + k - 1) % m);
        vstd::arithmetic::div_mod::lemma_add_mod_noop(r + k - 1, 1, m);
        vstd::arithmetic::div_mod::lemma_small_mod(1, m as nat);
        if prev == usize::MAX {
            vstd::arithmetic::div_mod::lemma_mod_self_0(m);
        } else {
            vstd::arithmetic::div_mod::lemma_small_mod((prev + 1) as nat, m as nat);
        }
    } else {
        vstd::arithmetic::div_mod::lemma_small_mod(r as nat, (usize::MAX as int + 1) as nat);
    }
}

/// A receiver that had caught up with the channel observes any number of
/// notifications from one up to `usize::MAX`: no notification is lost unless
/// the round counter wraps all the way around.
pub proof fn lemma_notifications_observed(round: usize, k: nat)
    requires
        1 <= k <= usize::MAX,
    ensures
        observes(round, rounds_after(round, k)),
{
    lemma_rounds_after(round, k);
    let m = usize::MAX as int + 1;
    if round + k < m {
        vstd::arithmetic::div_mod::lemma_small_mod((round + k) as nat, m as nat);
    } else {
        vstd::arithmetic::div_mod::lemma_mod_sub_multiples_vanish(round + k, m);
        vstd::arithmetic::div_mod::lemma_small_mod((round + k - m) as nat, m as nat);
    }
}

} // verus!
