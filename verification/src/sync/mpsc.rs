//! Multi-producer, single-consumer channels that suspend fibers instead of
//! blocking threads.
//!
//! A channel is a queue: values come out in the order they went in. An
//! unbounded channel (`channel`) never refuses a value while its receiver
//! lives; a bounded one (`sync_channel`) holds at most its capacity. The
//! receiver reports `Disconnected` only once the queue is empty and every
//! sender has hung up.

use vstd::prelude::*;
use vstd::rwlock::*;
use std::collections::VecDeque;
use std::sync::Arc;
use crate::{in_coroutine, FullId, Step};
use crate::evented::in_coroutine_spec;
use crate::sync::broadcast;
use crate::sync::broadcast::{append_woken, lemma_woken_prefix_of_self};

verus! {

/// Why `try_recv` returned no value.
#[derive(Clone, Copy, PartialEq, Eq, Structural, Debug)]
pub enum TryRecvError {
    /// The queue is empty, and some sender may still send.
    Empty,
    /// The queue is empty, and every sender has hung up.
    Disconnected,
}

/// `recv` found the channel empty with every sender gone.
#[derive(Clone, Copy, PartialEq, Eq, Structural, Debug)]
pub struct RecvError;

/// A value that could not be sent because the receiver is gone.
pub struct SendError<T>(pub T);

/// A value that `try_send` could not deliver, and why.
pub enum TrySendError<T> {
    /// The bounded queue is at capacity.
    Full(T),
    /// The receiver is gone.
    Disconnected(T),
}

/// Whether a queue of `len` values has room for one more under `bound`.
///
/// A channel of capacity 0 is a rendezvous: it takes a value only to hand it
/// to a receiver that waits in `recv` (`receiver_waiting`), and only while it
/// holds no value already handed over.
pub open spec fn has_room(len: nat, bound: Option<usize>, receiver_waiting: bool) -> bool {
    match bound {
        None => true,
        Some(b) => if b == 0 {
            receiver_waiting && len == 0
        } else {
            len < b
        },
    }
}

/// Whether the receiver still waits after a send with outcome `r`: a value
/// handed over on a rendezvous channel answers its wait.
pub open spec fn waiting_after_send<T>(
    bound: Option<usize>,
    receiver_waiting: bool,
    r: Result<(), TrySendError<T>>,
) -> bool {
    if bound == Some(0usize) && r is Ok {
        false
    } else {
        receiver_waiting
    }
}

/// The most values a channel under `bound` holds at once: its capacity, and
/// one value in hand-over on a rendezvous channel.
pub open spec fn holds_at_most(bound: usize) -> nat {
    if bound == 0 {
        1
    } else {
        bound as nat
    }
}

/// What offering `t` to a queue holding `items` gives: the new contents and
/// the outcome. A gone receiver refuses first, a queue without room (see
/// `has_room`) next; otherwise `t` joins the back of the queue.
pub open spec fn send_outcome<T>(
    items: Seq<T>,
    bound: Option<usize>,
    receiver_alive: bool,
    receiver_waiting: bool,
    t: T,
) -> (Seq<T>, Result<(), TrySendError<T>>) {
    if !receiver_alive {
        (items, Err(TrySendError::Disconnected(t)))
    } else if !has_room(items.len(), bound, receiver_waiting) {
        (items, Err(TrySendError::Full(t)))
    } else {
        (items.push(t), Ok(()))
    }
}

/// What taking from a queue holding `items`, with `senders` senders left,
/// gives: the front value while there is one; otherwise `Disconnected` when no
/// sender is left and `Empty` when some is.
pub open spec fn recv_outcome<T>(items: Seq<T>, senders: nat) -> (Seq<T>, Result<T, TryRecvError>) {
    if items.len() > 0 {
        (items.drop_first(), Ok(items[0]))
    } else if senders == 0 {
        (items, Err(TryRecvError::Disconnected))
    } else {
        (items, Err(TryRecvError::Empty))
    }
}

/// What one receiving step gives, once the queue gave `outcome`: the front
/// value, or `RecvError` when every sender is gone. On an empty queue the
/// step asks to `Retry` when, inside a coroutine, a notification came in
/// (`notified`), and to `Park` otherwise.
pub open spec fn recv_step_spec<T>(outcome: Result<T, TryRecvError>, in_coroutine: bool, notified: bool) -> Step<
    Result<T, RecvError>,
    (),
> {
    match outcome {
        Ok(t) => Step::Done(Ok(t)),
        Err(TryRecvError::Disconnected) => Step::Done(Err(RecvError)),
        Err(TryRecvError::Empty) => if in_coroutine && notified {
            Step::Retry(())
        } else {
            Step::Park(())
        },
    }
}

/// Decides one receiving step from what the queue gave; see `recv_step_spec`.
pub fn recv_step<T>(outcome: Result<T, TryRecvError>, in_coroutine: bool, notified: bool) -> (r: Step<
    Result<T, RecvError>,
    (),
>)
    ensures
        r == recv_step_spec(outcome, in_coroutine, notified),
{
    match outcome {
        Ok(t) => Step::Done(Ok(t)),
        Err(TryRecvError::Disconnected) => Step::Done(Err(RecvError)),
        Err(TryRecvError::Empty) => {
            if in_coroutine && notified {
                Step::Retry(())
            } else {
                Step::Park(())
            }
        },
    }
}

/// Whether the step `r` answers a receive from a queue holding `items`
/// with `senders` senders left: it delivers the front value when there is
/// one, reports the hang-up when the queue is empty and no sender is left,
/// and waits (parks or retries) only on an empty queue that some sender may
/// still feed.
pub open spec fn step_answers_receive<T>(r: Step<Result<T, RecvError>, ()>, items: Seq<T>, senders: nat) -> bool {
    &&& items.len() > 0 ==> r == Step::<Result<T, RecvError>, ()>::Done(Ok(items[0]))
    &&& items.len() == 0 && senders == 0 ==> r == Step::<Result<T, RecvError>, ()>::Done(
        Err(RecvError),
    )
    &&& (r is Park || r is Retry) ==> items.len() == 0 && senders > 0
}

/// A receiving step on what the queue gave answers the receive: the front
/// value when there is one, `RecvError` (never a wait) once the queue is
/// empty and every sender has hung up, and a wait only while some sender is
/// left, inside a coroutine or outside one.
pub proof fn lemma_receiving_step<T>(items: Seq<T>, senders: nat, in_coroutine: bool, notified: bool)
    ensures
        step_answers_receive(
            recv_step_spec(recv_outcome(items, senders).1, in_coroutine, notified),
            items,
            senders,
        ),
{
}

/// What one sending step gives, once the queue gave `outcome` for the value:
/// `Ok` when it was queued, `SendError` with the value when the receiver is
/// gone. On a full queue the value is handed back, asking to `Retry` when,
/// inside a coroutine, a notification came in (`notified`), and to `Park`
/// otherwise.
pub open spec fn send_step_spec<T>(outcome: Result<(), TrySendError<T>>, in_coroutine: bool, notified: bool) -> Step<
    Result<(), SendError<T>>,
    T,
> {
    match outcome {
        Ok(()) => Step::Done(Ok(())),
        Err(TrySendError::Disconnected(v)) => Step::Done(Err(SendError(v))),
        Err(TrySendError::Full(v)) => if in_coroutine && notified {
            Step::Retry(v)
        } else {
            Step::Park(v)
        },
    }
}

/// Decides one sending step from what the queue gave; see `send_step_spec`.
pub fn send_step<T>(outcome: Result<(), TrySendError<T>>, in_coroutine: bool, notified: bool) -> (r: Step<
    Result<(), SendError<T>>,
    T,
>)
    ensures
        r == send_step_spec(outcome, in_coroutine, notified),
{
    match outcome {
        Ok(()) => Step::Done(Ok(())),
        Err(TrySendError::Disconnected(v)) => Step::Done(Err(SendError(v))),
        Err(TrySendError::Full(v)) => {
            if in_coroutine && notified {
                Step::Retry(v)
            } else {
                Step::Park(v)
            }
        },
    }
}

/// Whether the step `r` answers sending `t` to a queue holding `items`
/// under `bound`: it reports the gone receiver with `t` handed back, reports
/// `Ok` when there was room, and waits (parks or retries, handing `t` back)
/// only on a live channel without room.
pub open spec fn step_answers_send<T>(
    r: Step<Result<(), SendError<T>>, T>,
    items: Seq<T>,
    bound: Option<usize>,
    receiver_alive: bool,
    receiver_waiting: bool,
    t: T,
) -> bool {
    &&& !receiver_alive ==> r == Step::<Result<(), SendError<T>>, T>::Done(Err(SendError(t)))
    &&& receiver_alive && has_room(items.len(), bound, receiver_waiting) ==> r == Step::<
        Result<(), SendError<T>>,
        T,
    >::Done(Ok(()))
    &&& (r is Park || r is Retry) ==> receiver_alive && !has_room(
        items.len(),
        bound,
        receiver_waiting,
    )
}

/// A sending step on what the queue gave answers the send: a gone receiver
/// always fails it with the value handed back (never a wait), room always
/// takes the value, and a wait happens only on a live channel without room.
pub proof fn lemma_sending_step<T>(
    items: Seq<T>,
    bound: Option<usize>,
    receiver_alive: bool,
    receiver_waiting: bool,
    t: T,
    in_coroutine: bool,
    notified: bool,
)
    ensures
        step_answers_send(
            send_step_spec(
                send_outcome(items, bound, receiver_alive, receiver_waiting, t).1,
                in_coroutine,
                notified,
            ),
            items,
            bound,
            receiver_alive,
            receiver_waiting,
            t,
        ),
{
}

/// Counting a cloned end keeps the channel open through one hang-up: when
/// the count a clone left is one more than the count it found, and the end
/// it was cloned from was itself counted, then after any one end hangs up
/// a sender is still left, and an empty channel reports `Empty`, not
/// `Disconnected`.
pub proof fn lemma_counted_clone_keeps_channel_open<T>(found: ChannelState<T>, left: ChannelState<T>)
    requires
        found.senders() >= 1,
        found.senders() < usize::MAX,
        left.senders() == found.senders() + 1,
    ensures
        left.senders() - 1 >= 1,
        recv_outcome(Seq::<T>::empty(), (left.senders() - 1) as nat).1 == Err::<T, TryRecvError>(
            TryRecvError::Empty,
        ),
{
}

/// The state one channel's ends share.
pub struct ChannelState<T> {
    queue: VecDeque<T>,
    bound: Option<usize>,
    senders: usize,
    receiver_alive: bool,
    receiver_waiting: bool,
}

impl<T> ChannelState<T> {
    /// The queued values, front first.
    pub closed spec fn items(&self) -> Seq<T> {
        self.queue@
    }

    /// The capacity; `None` for an unbounded channel.
    pub closed spec fn bound(&self) -> Option<usize> {
        self.bound
    }

    /// How many sending ends are alive.
    pub closed spec fn senders(&self) -> nat {
        self.senders as nat
    }

    /// Whether the receiving end is alive.
    pub closed spec fn receiver_alive(&self) -> bool {
        self.receiver_alive
    }

    /// Whether the receiver waits in `recv` for a value.
    pub closed spec fn receiver_waiting(&self) -> bool {
        self.receiver_waiting
    }

    /// A bounded queue never holds more than `holds_at_most` its capacity.
    pub open spec fn wf(&self) -> bool {
        self.bound() matches Some(b) ==> self.items().len() <= holds_at_most(b)
    }

    /// A fresh channel with one sender, a live receiver and nothing queued.
    pub fn new(bound: Option<usize>) -> (s: ChannelState<T>)
        ensures
            s.wf(),
            s.items() == Seq::<T>::empty(),
            s.bound() == bound,
            s.senders() == 1,
            s.receiver_alive(),
            !s.receiver_waiting(),
    {
        ChannelState {
            queue: VecDeque::new(),
            bound,
            senders: 1,
            receiver_alive: true,
            receiver_waiting: false,
        }
    }

    /// Offers `t` to the queue; see `send_outcome`.
    pub fn try_send(&mut self, t: T) -> (r: Result<(), TrySendError<T>>)
        requires
            old(self).wf(),
        ensures
            final(self).wf(),
            (final(self).items(), r) == send_outcome(
                old(self).items(),
                old(self).bound(),
                old(self).receiver_alive(),
                old(self).receiver_waiting(),
                t,
            ),
            final(self).receiver_waiting() == waiting_after_send(
                old(self).bound(),
                old(self).receiver_waiting(),
                r,
            ),
            final(self).bound() == old(self).bound(),
            final(self).senders() == old(self).senders(),
            final(self).receiver_alive() == old(self).receiver_alive(),
    {
        if !self.receiver_alive {
            return Err(TrySendError::Disconnected(t));
        }
        let room = match self.bound {
            None => true,
            Some(b) => {
                if b == 0 {
                    self.receiver_waiting && self.queue.len() == 0
                } else {
                    self.queue.len() < b
                }
            },
        };
        if !room {
            return Err(TrySendError::Full(t));
        }
        self.queue.push_back(t);
        if self.bound == Some(0usize) {
            self.receiver_waiting = false;
        }
        Ok(())
    }

    /// Takes the front value; see `recv_outcome`.
    pub fn try_recv(&mut self) -> (r: Result<T, TryRecvError>)
        requires
            old(self).wf(),
        ensures
            final(self).wf(),
            (final(self).items(), r) == recv_outcome(old(self).items(), old(self).senders()),
            final(self).bound() == old(self).bound(),
            final(self).senders() == old(self).senders(),
            final(self).receiver_alive() == old(self).receiver_alive(),
            final(self).receiver_waiting() == old(self).receiver_waiting(),
    {
        match self.queue.pop_front() {
            Some(t) => {
                assert(self.queue@ =~= old(self).queue@.drop_first());
                Ok(t)
            },
            None => {
                if self.senders == 0 {
                    Err(TryRecvError::Disconnected)
                } else {
                    Err(TryRecvError::Empty)
                }
            },
        }
    }

    /// Takes the front value on behalf of a receiver waiting in `recv`: as
    /// `try_recv`, and the receiver is left waiting exactly when it found the
    /// queue empty with some sender left.
    pub fn recv_waiting(&mut self) -> (r: Result<T, TryRecvError>)
        requires
            old(self).wf(),
        ensures
            final(self).wf(),
            (final(self).items(), r) == recv_outcome(old(self).items(), old(self).senders()),
            final(self).receiver_waiting() == (r == Err::<T, TryRecvError>(TryRecvError::Empty)),
            final(self).bound() == old(self).bound(),
            final(self).senders() == old(self).senders(),
            final(self).receiver_alive() == old(self).receiver_alive(),
    {
        let r = self.try_recv();
        self.receiver_waiting = match r {
            Err(TryRecvError::Empty) => true,
            _ => false,
        };
        r
    }

    /// Records one more sending end. The count saturates at `usize::MAX`,
    /// more ends than any memory can hold.
    pub fn add_sender(&mut self)
        requires
            old(self).wf(),
        ensures
            final(self).wf(),
            final(self).senders() == if old(self).senders() == usize::MAX {
                old(self).senders()
            } else {
                old(self).senders() + 1
            },
            final(self).items() == old(self).items(),
            final(self).bound() == old(self).bound(),
            final(self).receiver_alive() == old(self).receiver_alive(),
            final(self).receiver_waiting() == old(self).receiver_waiting(),
    {
        if self.senders < usize::MAX {
            self.senders = self.senders + 1;
        }
    }

    /// Records that one sending end has hung up.
    pub fn drop_sender(&mut self)
        requires
            old(self).wf(),
        ensures
            final(self).wf(),
            final(self).senders() == if old(self).senders() == 0 {
                0
            } else {
                (old(self).senders() - 1) as nat
            },
            final(self).items() == old(self).items(),
            final(self).bound() == old(self).bound(),
            final(self).receiver_alive() == old(self).receiver_alive(),
            final(self).receiver_waiting() == old(self).receiver_waiting(),
    {
        if self.senders > 0 {
            self.senders = self.senders - 1;
        }
    }

    /// Records that the receiving end has hung up.
    pub fn drop_receiver(&mut self)
        requires
            old(self).wf(),
        ensures
            final(self).wf(),
            !final(self).receiver_alive(),
            final(self).items() == old(self).items(),
            final(self).bound() == old(self).bound(),
            final(self).senders() == old(self).senders(),
    {
        self.receiver_alive = false;
    }
}

/// The lock predicate of a shared channel: well formed, with the capacity it
/// was made with.
pub struct ChannelInv {
    pub bound: Option<usize>,
}

impl<T> RwLockPredicate<ChannelState<T>> for ChannelInv {
    open spec fn inv(self, v: ChannelState<T>) -> bool {
        v.wf() && v.bound() == self.bound
    }
}

/// The shared, locked state of one channel.
pub type SharedChannel<T> = RwLock<ChannelState<T>, ChannelInv>;

/// A shared channel of capacity `bound`, with the state it starts in
/// handed back as a ghost value.
fn new_shared<T>(bound: Option<usize>) -> (r: (Arc<SharedChannel<T>>, Ghost<ChannelState<T>>))
    ensures
        r.0.pred() == (ChannelInv { bound }),
        r.0.inv(r.1@),
        r.1@.items() == Seq::<T>::empty(),
        r.1@.senders() == 1,
        r.1@.receiver_alive(),
{
    let state = ChannelState::new(bound);
    let ghost start = state;
    (Arc::new(RwLock::new(state, Ghost(ChannelInv { bound }))), Ghost(start))
}

/// Offers `t` to the locked queue: the outcome is `send_outcome` of the
/// state found in the lock (handed back as a ghost value), a state of this
/// channel.
fn shared_try_send<T>(chan: &SharedChannel<T>, t: T) -> (r: (
    Result<(), TrySendError<T>>,
    Ghost<ChannelState<T>>,
))
    ensures
        chan.inv(r.1@),
        r.0 == send_outcome(
            r.1@.items(),
            r.1@.bound(),
            r.1@.receiver_alive(),
            r.1@.receiver_waiting(),
            t,
        ).1,
        chan.pred().bound is None ==> !(r.0 is Err && r.0->Err_0 is Full),
        r.0 matches Err(TrySendError::Full(v)) ==> v == t,
        r.0 matches Err(TrySendError::Disconnected(v)) ==> v == t,
{
    let (mut state, handle) = chan.acquire_write();
    let ghost found = state;
    let r = state.try_send(t);
    handle.release_write(state);
    (r, Ghost(found))
}

/// Takes from the locked queue: the outcome is `recv_outcome` of the state
/// found in the lock (handed back as a ghost value), a state of this channel.
fn shared_try_recv<T>(chan: &SharedChannel<T>) -> (r: (Result<T, TryRecvError>, Ghost<ChannelState<T>>))
    ensures
        chan.inv(r.1@),
        r.0 == recv_outcome(r.1@.items(), r.1@.senders()).1,
{
    let (mut state, handle) = chan.acquire_write();
    let ghost found = state;
    let r = state.try_recv();
    handle.release_write(state);
    (r, Ghost(found))
}

/// Takes from the locked queue on behalf of a receiver waiting in `recv`:
/// the outcome is `recv_outcome` of the state found in the lock (handed back
/// as a ghost value). Also returns whether the receiver has just begun to
/// wait on a rendezvous channel, which the senders must hear of.
fn shared_recv_waiting<T>(chan: &SharedChannel<T>) -> (r: (
    Result<T, TryRecvError>,
    bool,
    Ghost<ChannelState<T>>,
))
    ensures
        chan.inv(r.2@),
        r.0 == recv_outcome(r.2@.items(), r.2@.senders()).1,
        r.1 == (r.2@.bound() == Some(0usize) && !r.2@.receiver_waiting() && r.0 == Err::<
            T,
            TryRecvError,
        >(TryRecvError::Empty)),
{
    let (mut state, handle) = chan.acquire_write();
    let ghost found = state;
    let was_waiting = state.receiver_waiting;
    let rendezvous = state.bound == Some(0usize);
    let r = state.recv_waiting();
    handle.release_write(state);
    let newly = match r {
        Err(TryRecvError::Empty) => rendezvous && !was_waiting,
        _ => false,
    };
    (r, newly, Ghost(found))
}

/// Counts one more sender in the locked state: from the state found to the
/// state left (both handed back as ghost values), the count goes up by one
/// (saturating) and nothing else changes.
fn shared_add_sender<T>(chan: &SharedChannel<T>) -> (r: Ghost<(ChannelState<T>, ChannelState<T>)>)
    ensures
        chan.inv(r@.0),
        chan.inv(r@.1),
        r@.1.senders() == if r@.0.senders() == usize::MAX {
            r@.0.senders()
        } else {
            r@.0.senders() + 1
        },
        r@.1.items() == r@.0.items(),
        r@.1.receiver_alive() == r@.0.receiver_alive(),
{
    let (mut state, handle) = chan.acquire_write();
    let ghost found = state;
    state.add_sender();
    let ghost left = state;
    handle.release_write(state);
    Ghost((found, left))
}

fn shared_drop_sender<T>(chan: &SharedChannel<T>) {
    let (mut state, handle) = chan.acquire_write();
    state.drop_sender();
    handle.release_write(state);
}

fn shared_drop_receiver<T>(chan: &SharedChannel<T>) {
    let (mut state, handle) = chan.acquire_write();
    state.drop_receiver();
    handle.release_write(state);
}

/// Channel receiving end. Create with `channel()`.
pub struct Receiver<T> {
    chan: Arc<SharedChannel<T>>,
    notify_rx: broadcast::Receiver,
    seen: Ghost<ChannelState<T>>,
}

/// Channel sending end. Create with `channel()`; clone for more senders.
///
/// Use it inside coroutines or outside of them alike: sending never blocks.
pub struct Sender<T> {
    chan: Arc<SharedChannel<T>>,
    notif_tx: broadcast::Sender,
    counted: Ghost<(ChannelState<T>, ChannelState<T>)>,
}

/// Bounded channel receiving end. Create with `sync_channel()`.
pub struct SyncReceiver<T> {
    chan: Arc<SharedChannel<T>>,
    broadcast_tx: broadcast::Sender,
    broadcast_rx: broadcast::Receiver,
    seen: Ghost<ChannelState<T>>,
}

/// Bounded channel sending end. Create with `sync_channel()`.
pub struct SyncSender<T> {
    chan: Arc<SharedChannel<T>>,
    broadcast_rx: broadcast::Receiver,
    broadcast_tx: broadcast::Sender,
    seen: Ghost<ChannelState<T>>,
}

impl<T> Receiver<T> {
    /// The channel this end belongs to.
    pub closed spec fn channel(&self) -> SharedChannel<T> {
        *self.chan
    }

    /// The channel state this end found at its last receiving step inside a
    /// coroutine (or the state the channel started in).
    pub closed spec fn last_seen(&self) -> ChannelState<T> {
        self.seen@
    }

    /// Takes the front value, if any, without waiting: `Empty` when nothing
    /// is queued, `Disconnected` when nothing is queued and every sender has
    /// hung up.
    pub fn try_recv(&self) -> (r: Result<T, TryRecvError>) {
        let (r, _) = shared_try_recv(&self.chan);
        r
    }

    /// One step of receiving on behalf of `me`.
    ///
    /// Done with the front value, or with `RecvError` once the channel is
    /// empty with every sender gone. Inside a coroutine, an empty channel
    /// registers `me` to be woken by the next send and asks to `Park`, or to
    /// `Retry` when a send came in meanwhile. Outside a coroutine it asks to
    /// `Park` (yield the thread) and try again.
    pub fn recv(&mut self, me: FullId) -> (r: Step<Result<T, RecvError>, ()>)
        ensures
            final(self).channel() == old(self).channel(),
            r is Retry ==> !me.loop_.is_none(),
            me.loop_.is_none() ==> *final(self) == *old(self),
            exists|o: Result<T, TryRecvError>, n: bool|
                r == #[trigger] recv_step_spec(o, in_coroutine_spec(me), n),
            !me.loop_.is_none() ==> final(self).channel().inv(final(self).last_seen()),
            !me.loop_.is_none() ==> exists|n: bool|
                r == #[trigger] recv_step_spec(
                    recv_outcome(final(self).last_seen().items(), final(self).last_seen().senders()).1,
                    true,
                    n,
                ),
            !me.loop_.is_none() ==> step_answers_receive(
                r,
                final(self).last_seen().items(),
                final(self).last_seen().senders(),
            ),
    {
        let in_coro = in_coroutine(me.loop_);
        if in_coro {
            self.notify_rx.reset();
        }
        let (outcome, Ghost(found)) = shared_try_recv(&self.chan);
        if in_coro {
            self.seen = Ghost(found);
        }
        let notified = match outcome {
            Err(TryRecvError::Empty) => in_coro && self.notify_rx.wait(me),
            _ => false,
        };
        let r = recv_step(outcome, in_coro, notified);
        assert(r == recv_step_spec(outcome, in_coroutine_spec(me), notified));
        proof {
            lemma_receiving_step(found.items(), found.senders(), in_coro, notified);
        }
        r
    }

    /// Hangs up this receiving end: later sends are refused.
    pub fn close(self) {
        shared_drop_receiver(&self.chan);
    }
}

impl<T> Sender<T> {
    #[verifier::type_invariant]
    closed spec fn unbounded(&self) -> bool {
        self.chan.pred() == (ChannelInv { bound: None })
    }

    /// The channel states around the counting of this end: the one found and
    /// the one left when it was counted among the live senders.
    pub closed spec fn counted(&self) -> (ChannelState<T>, ChannelState<T>) {
        self.counted@
    }

    /// The channel this end belongs to.
    pub closed spec fn channel(&self) -> SharedChannel<T> {
        *self.chan
    }

    /// Delivers `t` to the back of the queue and notifies the receiver,
    /// appending the fibers to wake to `woken`. Fails, handing `t` back, when
    /// the receiver is gone.
    ///
    /// This does not block.
    pub fn send(&self, t: T, woken: &mut Vec<FullId>) -> (r: Result<(), SendError<T>>)
        ensures
            r matches Err(SendError(v)) ==> v == t,
            r is Err ==> final(woken)@ == old(woken)@,
            old(woken)@.is_prefix_of(final(woken)@),
    {
        proof {
            use_type_invariant(self);
        }
        proof {
            lemma_woken_prefix_of_self(woken@);
        }
        let (outcome, _) = shared_try_send(&self.chan, t);
        match outcome {
            Ok(()) => {
                let more = self.notif_tx.notify();
                append_woken(woken, more);
                Ok(())
            },
            Err(TrySendError::Disconnected(v)) => Err(SendError(v)),
            Err(TrySendError::Full(v)) => {
                assert(false);
                Err(SendError(v))
            },
        }
    }

    /// Hangs up this sending end and notifies the receiver, appending the
    /// fibers to wake to `woken`. Once every sender has hung up, the receiver
    /// gets `Disconnected` after the queue has drained.
    pub fn disconnect(self, woken: &mut Vec<FullId>)
        ensures
            old(woken)@.is_prefix_of(final(woken)@),
    {
        shared_drop_sender(&self.chan);
        let more = self.notif_tx.notify();
        append_woken(woken, more);
    }
}

impl<T> Clone for Sender<T> {
    /// Another sending end of the same channel.
    ///
    /// The new end is counted among the channel's live senders: the count it
    /// found went up by one (see `counted`), so the channel reports every
    /// sender gone only once this end has hung up too.
    fn clone(&self) -> (r: Sender<T>)
        ensures
            r.channel() == self.channel(),
            self.channel().inv(r.counted().0),
            self.channel().inv(r.counted().1),
            r.counted().1.senders() == if r.counted().0.senders() == usize::MAX {
                r.counted().0.senders()
            } else {
                r.counted().0.senders() + 1
            },
            r.counted().1.items() == r.counted().0.items(),
            r.counted().1.receiver_alive() == r.counted().0.receiver_alive(),
    {
        proof {
            use_type_invariant(self);
        }
        let counted = shared_add_sender(&self.chan);
        Sender { chan: Arc::clone(&self.chan), notif_tx: self.notif_tx.clone(), counted }
    }
}

impl<T> SyncReceiver<T> {
    /// The channel this end belongs to.
    pub closed spec fn channel(&self) -> SharedChannel<T> {
        *self.chan
    }

    /// The channel state this end found at its last receiving step inside a
    /// coroutine (or the state the channel started in).
    pub closed spec fn last_seen(&self) -> ChannelState<T> {
        self.seen@
    }

    /// Takes the front value, if any, without waiting: `Empty` when nothing
    /// is queued, `Disconnected` when nothing is queued and every sender has
    /// hung up.
    pub fn try_recv(&self) -> (r: Result<T, TryRecvError>) {
        let (r, _) = shared_try_recv(&self.chan);
        r
    }

    /// One step of receiving on behalf of `me`.
    ///
    /// Done with the front value, or with `RecvError` once the channel is
    /// empty with every sender gone. Inside a coroutine, taking a value
    /// notifies the senders waiting for room (appending them to `woken`), and
    /// an empty channel registers `me` to be woken by the next send and asks
    /// to `Park`, or to `Retry` when a send came in meanwhile. Outside a
    /// coroutine an empty channel asks to `Park` (yield the thread) and try
    /// again. Either way an empty channel leaves the receiver waiting; on a
    /// rendezvous channel (capacity 0) that lets a sender hand over one
    /// value, and the waiting senders are notified when the wait begins.
    pub fn recv(&mut self, me: FullId, woken: &mut Vec<FullId>) -> (r: Step<
        Result<T, RecvError>,
        (),
    >)
        ensures
            final(self).channel() == old(self).channel(),
            r is Retry ==> !me.loop_.is_none(),
            me.loop_.is_none() ==> *final(self) == *old(self),
            exists|o: Result<T, TryRecvError>, n: bool|
                r == #[trigger] recv_step_spec(o, in_coroutine_spec(me), n),
            !me.loop_.is_none() ==> final(self).channel().inv(final(self).last_seen()),
            !me.loop_.is_none() ==> exists|n: bool|
                r == #[trigger] recv_step_spec(
                    recv_outcome(final(self).last_seen().items(), final(self).last_seen().senders()).1,
                    true,
                    n,
                ),
            !me.loop_.is_none() ==> step_answers_receive(
                r,
                final(self).last_seen().items(),
                final(self).last_seen().senders(),
            ),
            r matches Step::Done(Err(_)) ==> final(woken)@ == old(woken)@,
            me.loop_.is_none() && r is Done ==> final(woken)@ == old(woken)@,
            old(woken)@.is_prefix_of(final(woken)@),
    {
        proof {
            lemma_woken_prefix_of_self(woken@);
        }
        let in_coro = in_coroutine(me.loop_);
        if in_coro {
            self.broadcast_rx.reset();
        }
        let (outcome, newly_waiting, Ghost(found)) = shared_recv_waiting(&self.chan);
        if in_coro {
            self.seen = Ghost(found);
        }
        if newly_waiting {
            let more = self.broadcast_tx.notify();
            append_woken(woken, more);
        }
        let notified = match outcome {
            Ok(_) => {
                if in_coro {
                    let more = self.broadcast_tx.notify();
                    append_woken(woken, more);
                }
                false
            },
            Err(TryRecvError::Disconnected) => false,
            Err(TryRecvError::Empty) => in_coro && self.broadcast_rx.wait(me),
        };
        let r = recv_step(outcome, in_coro, notified);
        assert(r == recv_step_spec(outcome, in_coroutine_spec(me), notified));
        proof {
            lemma_receiving_step(found.items(), found.senders(), in_coro, notified);
        }
        r
    }

    /// Hangs up this receiving end: later sends are refused.
    pub fn close(self) {
        shared_drop_receiver(&self.chan);
    }
}

impl<T> SyncSender<T> {
    /// The channel this end belongs to.
    pub closed spec fn channel(&self) -> SharedChannel<T> {
        *self.chan
    }

    /// The channel state this end found at its last sending step inside a
    /// coroutine (or the state the channel started in).
    pub closed spec fn last_seen(&self) -> ChannelState<T> {
        self.seen@
    }

    /// One step of sending `t` on behalf of `me`.
    ///
    /// Done with `Ok` once `t` is queued (the receiver is notified, and the
    /// fibers to wake appended to `woken`), or with `SendError(t)` when the
    /// receiver is gone. When the queue is full, inside a coroutine `me` is
    /// registered to be woken when room is made and the step asks to `Park`,
    /// or to `Retry` when a receive came in meanwhile; outside a coroutine it
    /// asks to `Park` (yield the thread). Either way `t` is handed back.
    pub fn send(&mut self, t: T, me: FullId, woken: &mut Vec<FullId>) -> (r: Step<
        Result<(), SendError<T>>,
        T,
    >)
        ensures
            final(self).channel() == old(self).channel(),
            r is Retry ==> !me.loop_.is_none(),
            me.loop_.is_none() ==> *final(self) == *old(self),
            exists|o: Result<(), TrySendError<T>>, n: bool|
                r == #[trigger] send_step_spec(o, in_coroutine_spec(me), n),
            r matches Step::Done(Err(SendError(v))) ==> v == t,
            r matches Step::Park(v) ==> v == t,
            r matches Step::Retry(v) ==> v == t,
            !(r matches Step::Done(Ok(_))) ==> final(woken)@ == old(woken)@,
            old(woken)@.is_prefix_of(final(woken)@),
            !me.loop_.is_none() ==> final(self).channel().inv(final(self).last_seen()),
            !me.loop_.is_none() ==> exists|n: bool|
                r == #[trigger] send_step_spec(
                    send_outcome(
                        final(self).last_seen().items(),
                        final(self).last_seen().bound(),
                        final(self).last_seen().receiver_alive(),
                        final(self).last_seen().receiver_waiting(),
                        t,
                    ).1,
                    true,
                    n,
                ),
            !me.loop_.is_none() ==> step_answers_send(
                r,
                final(self).last_seen().items(),
                final(self).last_seen().bound(),
                final(self).last_seen().receiver_alive(),
                final(self).last_seen().receiver_waiting(),
                t,
            ),
    {
        let (outcome, Ghost(found)) = self.try_send_seen(t, woken);
        if in_coroutine(me.loop_) {
            self.seen = Ghost(found);
        }
        let in_coro = in_coroutine(me.loop_);
        let notified = match outcome {
            Err(TrySendError::Full(_)) => in_coro && self.broadcast_rx.wait(me),
            _ => false,
        };
        let r = send_step(outcome, in_coro, notified);
        assert(r == send_step_spec(outcome, in_coroutine_spec(me), notified));
        proof {
            lemma_sending_step(
                found.items(),
                found.bound(),
                found.receiver_alive(),
                found.receiver_waiting(),
                t,
                in_coro,
                notified,
            );
        }
        r
    }

    /// Offers `t` without waiting: `Full(t)` when the queue has no room (on a
    /// rendezvous channel: unless the receiver waits in `recv` and no value
    /// is in hand-over), `Disconnected(t)` when the receiver is gone. On success the receiver
    /// is notified, and the fibers to wake appended to `woken`.
    ///
    /// This does not block.
    pub fn try_send(&self, t: T, woken: &mut Vec<FullId>) -> (r: Result<(), TrySendError<T>>)
        ensures
            r matches Err(TrySendError::Full(v)) ==> v == t,
            r matches Err(TrySendError::Disconnected(v)) ==> v == t,
            r is Err ==> final(woken)@ == old(woken)@,
            old(woken)@.is_prefix_of(final(woken)@),
    {
        let (r, _) = self.try_send_seen(t, woken);
        r
    }

    /// `try_send`, handing back as a ghost value the channel state it found:
    /// the outcome is `send_outcome` of that state.
    fn try_send_seen(&self, t: T, woken: &mut Vec<FullId>) -> (r: (
        Result<(), TrySendError<T>>,
        Ghost<ChannelState<T>>,
    ))
        ensures
            self.channel().inv(r.1@),
            r.0 == send_outcome(
                r.1@.items(),
                r.1@.bound(),
                r.1@.receiver_alive(),
                r.1@.receiver_waiting(),
                t,
            ).1,
            r.0 matches Err(TrySendError::Full(v)) ==> v == t,
            r.0 matches Err(TrySendError::Disconnected(v)) ==> v == t,
            r.0 is Err ==> final(woken)@ == old(woken)@,
            old(woken)@.is_prefix_of(final(woken)@),
    {
        proof {
            lemma_woken_prefix_of_self(woken@);
        }
        let (r, found) = shared_try_send(&self.chan, t);
        if r.is_ok() {
            let more = self.broadcast_tx.notify();
            append_woken(woken, more);
        }
        (r, found)
    }

    /// Hangs up this sending end and notifies the receiver, appending the
    /// fibers to wake to `woken`.
    pub fn disconnect(self, woken: &mut Vec<FullId>)
        ensures
            old(woken)@.is_prefix_of(final(woken)@),
    {
        shared_drop_sender(&self.chan);
        let more = self.broadcast_tx.notify();
        append_woken(woken, more);
    }
}

/// Creates an unbounded channel.
///
/// The channel delivers values as a multi-producer, single-consumer queue.
/// Receiving inside a coroutine suspends the fiber instead of blocking the
/// thread; outside a coroutine it behaves like a plain channel.
pub fn channel<T>() -> (ends: (Sender<T>, Receiver<T>))
    ensures
        ends.0.channel() == ends.1.channel(),
        ends.0.channel().pred() == (ChannelInv { bound: None }),
{
    let (n_tx, n_rx) = broadcast::notify_channel();
    let (chan, Ghost(start)) = new_shared::<T>(None);
    (
        Sender { chan: Arc::clone(&chan), notif_tx: n_tx, counted: Ghost((start, start)) },
        Receiver { chan: chan, notify_rx: n_rx, seen: Ghost(start) },
    )
}

/// Creates a channel that holds at most `size` values.
///
/// Senders finding it full wait for room: a fiber is suspended, a plain
/// thread yields. With `size` 0 the channel is a rendezvous: a value is taken
/// only while the receiver waits in `recv`, and handed to it.
pub fn sync_channel<T>(size: usize) -> (ends: (SyncSender<T>, SyncReceiver<T>))
    ensures
        ends.0.channel() == ends.1.channel(),
        ends.0.channel().pred() == (ChannelInv { bound: Some(size) }),
{
    let (btx, brx) = broadcast::notify_channel();
    let (chan, Ghost(start)) = new_shared::<T>(Some(size));
    (
        SyncSender {
            chan: Arc::clone(&chan),
            broadcast_tx: btx.clone(),
            broadcast_rx: brx.clone(),
            seen: Ghost(start),
        },
        SyncReceiver { chan: chan, broadcast_tx: btx, broadcast_rx: brx, seen: Ghost(start) },
    )
}

/// The queue after offering each of `xs` in turn, starting from `items`,
/// with no receiver waiting in `recv`.
pub open spec fn queue_after_sends<T>(
    items: Seq<T>,
    bound: Option<usize>,
    receiver_alive: bool,
    xs: Seq<T>,
) -> Seq<T>
    decreases xs.len(),
{
    if xs.len() == 0 {
        items
    } else {
        queue_after_sends(
            send_outcome(items, bound, receiver_alive, false, xs[0]).0,
            bound,
            receiver_alive,
            xs.drop_first(),
        )
    }
}

/// The outcomes of `n` receives in turn from a queue holding `items`.
pub open spec fn receive_outcomes<T>(items: Seq<T>, senders: nat, n: nat) -> Seq<
    Result<T, TryRecvError>,
>
    decreases n,
{
    if n == 0 {
        Seq::empty()
    } else {
        seq![recv_outcome(items, senders).1] + receive_outcomes(
            recv_outcome(items, senders).0,
            senders,
            (n - 1) as nat,
        )
    }
}

/// Each value wrapped as a successful receive.
pub open spec fn as_received<T>(xs: Seq<T>) -> Seq<Result<T, TryRecvError>> {
    xs.map_values(|x: T| Ok::<T, TryRecvError>(x))
}

/// While the receiver lives, an unbounded channel takes every value, at the
/// back of the queue.
pub proof fn lemma_unbounded_takes_all<T>(items: Seq<T>, xs: Seq<T>)
    ensures
        queue_after_sends(items, None, true, xs) == items + xs,
    decreases xs.len(),
{
    if xs.len() > 0 {
        lemma_unbounded_takes_all(items.push(xs[0]), xs.drop_first());
        assert(items.push(xs[0]) + xs.drop_first() =~= items + xs);
    } else {
        assert(items + xs =~= items);
    }
}

/// Receiving as many times as values are queued gives back exactly those
/// values, front first, whether or not any sender is left.
pub proof fn lemma_receive_in_order<T>(items: Seq<T>, senders: nat)
    ensures
        receive_outcomes(items, senders, items.len()) == as_received(items),
    decreases items.len(),
{
    if items.len() > 0 {
        lemma_receive_in_order(items.drop_first(), senders);
        assert(receive_outcomes(items, senders, items.len()) =~= as_received(items));
    } else {
        assert(receive_outcomes(items, senders, 0) =~= as_received(items));
    }
}

/// A channel is a queue: values sent to a fresh unbounded channel come out in
/// the order they were sent, whatever became of the senders meanwhile; after
/// that, a receive reports `Disconnected` exactly when no sender is left.
pub proof fn lemma_fifo<T>(xs: Seq<T>, senders: nat)
    ensures
        receive_outcomes(queue_after_sends(Seq::empty(), None, true, xs), senders, xs.len())
            == as_received(xs),
        recv_outcome(Seq::<T>::empty(), senders).1 == (if senders == 0 {
            Err::<T, TryRecvError>(TryRecvError::Disconnected)
        } else {
            Err::<T, TryRecvError>(TryRecvError::Empty)
        }),
{
    lemma_unbounded_takes_all(Seq::<T>::empty(), xs);
    assert(Seq::<T>::empty() + xs =~= xs);
    lemma_receive_in_order(xs, senders);
}

/// A value already queued is delivered even after every sender has hung up.
pub proof fn lemma_queued_values_survive_disconnect<T>(items: Seq<T>)
    requires
        items.len() > 0,
    ensures
        recv_outcome(items, 0).1 == Ok::<T, TryRecvError>(items[0]),
{
}

/// A bounded channel accepts values until it is full and refuses the next
/// one with `Full`; taking one value makes room for one more.
pub proof fn lemma_bounded_capacity<T>(items: Seq<T>, b: usize, senders: nat, waiting: bool, t: T)
    requires
        0 < b,
        items.len() <= b,
    ensures
        items.len() < b ==> send_outcome(items, Some(b), true, waiting, t).1 is Ok,
        items.len() == b ==> send_outcome(items, Some(b), true, waiting, t) == (
            items,
            Err::<(), TrySendError<T>>(TrySendError::Full(t)),
        ),
        items.len() == b ==> send_outcome(
            recv_outcome(items, senders).0,
            Some(b),
            true,
            waiting,
            t,
        ).1 is Ok,
{
}

/// A rendezvous channel (capacity 0) takes a value exactly when the receiver
/// waits in `recv` and nothing is in hand-over; the value then reaches the
/// receiver on its next receive, which no longer waits, so a second value is
/// refused until the receiver waits again.
pub proof fn lemma_rendezvous<T>(t: T, u: T, senders: nat)
    ensures
        send_outcome(Seq::<T>::empty(), Some(0usize), true, true, t) == (
            seq![t],
            Ok::<(), TrySendError<T>>(()),
        ),
        !waiting_after_send(Some(0usize), true, Ok::<(), TrySendError<T>>(())),
        send_outcome(seq![t], Some(0usize), true, false, u).1 == Err::<(), TrySendError<T>>(
            TrySendError::Full(u),
        ),
        send_outcome(Seq::<T>::empty(), Some(0usize), true, false, t).1 == Err::<
            (),
            TrySendError<T>,
        >(TrySendError::Full(t)),
        recv_outcome(seq![t], senders) == (Seq::<T>::empty(), Ok::<T, TryRecvError>(t)),
{
    assert(seq![t].drop_first() =~= Seq::<T>::empty());
}

/// Once the receiver is gone every send is refused and the value handed
/// back, whatever the capacity.
pub proof fn lemma_send_after_receiver_gone<T>(
    items: Seq<T>,
    bound: Option<usize>,
    waiting: bool,
    t: T,
)
    ensures
        send_outcome(items, bound, false, waiting, t) == (
            items,
            Err::<(), TrySendError<T>>(TrySendError::Disconnected(t)),
        ),
{
}

} // verus!
