//! No lost wake-ups: a model of one receiving fiber running `recv` inside a
//! coroutine while senders send and hang up, step by step as the locks
//! interleave them.
//!
//! The receiver's step is three separate atomic actions: it synchronises
//! with the broadcast round (`reset`), looks at the queue (`try_recv`), and
//! registers itself while reading the round again (`wait`), then parks when
//! the round has not moved. A sender's `send` is two atomic actions: it
//! queues the value, then notifies; hanging up is likewise two. Any of these
//! may fall between the receiver's actions. The law below shows that a
//! parked receiver is never stranded: whenever there is something for it to
//! take (a value, or the news that every sender is gone), a notification is
//! still to come, and the receiver is registered to be woken by it.
//!
//! The models are tied to the code by reading, not by a contract of the
//! public ends: their shared state sits behind a lock whose contents no
//! contract can name. Each event is one locked step of the code. The
//! private steps state their effect on the state they find: `Reset` is the
//! round `Receiver::observe` reads; `Wait` is `Receiver::register_and_observe`
//! (the caller joins the waiters, the round is read); `TryRecv`, `Push` and
//! `Take` are `recv_outcome` and `send_outcome` as `shared_try_recv`,
//! `shared_recv_waiting` and `shared_try_send` state them; `TryLock` is
//! `lock_outcome` as `Mutex`'s `try_lock` states it. `Notify` is
//! `NotifyState::notify`. What the fiber does with each outcome is
//! `recv_step`, `send_step` and `lock_step`.
//!
//! A second model does the same for a fiber waiting on a `Mutex`: a release
//! (putting the value back, then notifying) never strands it. A third does it
//! for a fiber sending on a full bounded channel (a rendezvous one included),
//! which (unlike the others) does not synchronise before each try but keeps
//! the round it last saw: a receive by `SyncReceiver::recv` inside a
//! coroutine (taking a value and notifying, or beginning to wait on a
//! rendezvous channel and notifying) never strands it. Takes that notify
//! nobody, by `try_recv` or by `recv` outside a coroutine, are not in that
//! model: a sender parked on a full channel is not woken by them.

use vstd::prelude::*;
use crate::FullId;
use crate::sync::broadcast::{lemma_notifications_observed, next_round, observes, rounds_after};
use crate::sync::mpsc::{has_room, recv_outcome, send_outcome, waiting_after_send, TryRecvError};
use crate::sync::mutex::lock_outcome;

verus! {

/// Where the receiving fiber is in its step.
pub ghost enum RecvPhase {
    /// Between steps: about to synchronise with the round.
    Running,
    /// Synchronised at round `prev`; about to look at the queue.
    Reset { prev: usize },
    /// Found the queue empty after synchronising at round `prev`; about to
    /// register and read the round again.
    Checked { prev: usize },
    /// Suspended, waiting to be woken.
    Parked,
}

/// The state of one channel, its broadcast round, and the receiving fiber.
pub ghost struct RecvWorld<T> {
    /// The queued values.
    pub items: Seq<T>,
    /// The sending ends alive.
    pub senders: nat,
    /// Senders that changed the queue or hung up and have yet to notify.
    pub pending: nat,
    /// The broadcast round.
    pub round: usize,
    /// The fibers registered to be woken by the next notification.
    pub waiters: Set<FullId>,
    /// Where the receiver is.
    pub phase: RecvPhase,
    /// Notifications since the receiver last synchronised.
    pub since: nat,
    /// Whether a notification has handed out the receiver since it parked.
    pub woken: bool,
}

/// One atomic action of the receiver or of a sender.
pub ghost enum RecvEvent<T> {
    /// A sender queues a value (the first half of `send`).
    Push(T),
    /// A sender hangs up (the first half of `disconnect`).
    Hangup,
    /// A sender notifies (the second half of `send` or `disconnect`).
    Notify,
    /// The receiver synchronises with the round.
    Reset,
    /// The receiver looks at the queue.
    TryRecv,
    /// The receiver registers and reads the round again.
    Wait,
    /// The parked receiver, woken, runs again.
    Resume,
}

/// Whether `e` can happen in `w`.
pub open spec fn enabled<T>(w: RecvWorld<T>, e: RecvEvent<T>) -> bool {
    match e {
        RecvEvent::Push(_) => w.senders > 0,
        RecvEvent::Hangup => w.senders > 0,
        RecvEvent::Notify => true,
        RecvEvent::Reset => w.phase is Running,
        RecvEvent::TryRecv => w.phase is Reset,
        RecvEvent::Wait => w.phase is Checked,
        RecvEvent::Resume => w.phase is Parked && w.woken,
    }
}

/// The state after `e` happens in `w`, for the receiving fiber `me`.
pub open spec fn step<T>(w: RecvWorld<T>, e: RecvEvent<T>, me: FullId) -> RecvWorld<T> {
    match e {
        RecvEvent::Push(t) => {
            let (items, r) = send_outcome(w.items, None, true, false, t);
            RecvWorld { items, pending: if r is Ok { w.pending + 1 } else { w.pending }, ..w }
        },
        RecvEvent::Hangup => RecvWorld {
            senders: (w.senders - 1) as nat,
            pending: w.pending + 1,
            ..w
        },
        RecvEvent::Notify => RecvWorld {
            round: next_round(w.round),
            woken: w.woken || (w.phase is Parked && w.waiters.contains(me)),
            waiters: Set::empty(),
            pending: if w.pending > 0 { (w.pending - 1) as nat } else { 0 },
            since: w.since + 1,
            ..w
        },
        RecvEvent::Reset => RecvWorld { phase: RecvPhase::Reset { prev: w.round }, since: 0, ..w },
        RecvEvent::TryRecv => {
            let (items, r) = recv_outcome(w.items, w.senders);
            let prev = w.phase->Reset_prev;
            RecvWorld {
                items,
                phase: if r == Err::<T, TryRecvError>(TryRecvError::Empty) {
                    RecvPhase::Checked { prev }
                } else {
                    RecvPhase::Running
                },
                ..w
            }
        },
        RecvEvent::Wait => {
            let prev = w.phase->Checked_prev;
            RecvWorld {
                waiters: w.waiters.insert(me),
                phase: if observes(prev, w.round) {
                    RecvPhase::Running
                } else {
                    RecvPhase::Parked
                },
                woken: false,
                ..w
            }
        },
        RecvEvent::Resume => RecvWorld { phase: RecvPhase::Running, woken: false, ..w },
    }
}

/// Whether the receiver has something to take: a value, or the news that no
/// sender is left.
pub open spec fn has_news<T>(w: RecvWorld<T>) -> bool {
    w.items.len() > 0 || w.senders == 0
}

/// The invariant behind the protocol.
pub open spec fn protocol_inv<T>(w: RecvWorld<T>, me: FullId) -> bool {
    match w.phase {
        RecvPhase::Running => true,
        RecvPhase::Reset { prev } => w.round == rounds_after(prev, w.since),
        RecvPhase::Checked { prev } => {
            &&& w.round == rounds_after(prev, w.since)
            &&& has_news(w) ==> (w.pending > 0 || w.since > 0)
        },
        RecvPhase::Parked => {
            &&& (w.waiters.contains(me) || w.woken)
            &&& (!w.woken && has_news(w)) ==> w.pending > 0
        },
    }
}

/// Every action keeps the invariant, as long as the round counter does not
/// wrap all the way around while the receiver is between synchronising and
/// registering.
pub proof fn lemma_protocol_step<T>(w: RecvWorld<T>, e: RecvEvent<T>, me: FullId)
    requires
        protocol_inv(w, me),
        enabled(w, e),
        w.since < usize::MAX,
    ensures
        protocol_inv(step(w, e, me), me),
{
    let w2 = step(w, e, me);
    match e {
        RecvEvent::Notify => {
            match w.phase {
                RecvPhase::Reset { prev } => {
                    assert(w2.round == rounds_after(prev, w2.since));
                },
                RecvPhase::Checked { prev } => {
                    assert(w2.round == rounds_after(prev, w2.since));
                },
                _ => {},
            }
        },
        RecvEvent::Reset => {
            assert(w2.round == rounds_after(w.round, 0));
        },
        RecvEvent::Wait => {
            let prev = w.phase->Checked_prev;
            if w.since > 0 {
                lemma_notifications_observed(prev, w.since);
            }
        },
        _ => {},
    }
}

/// No lost wake-up: while the receiver is parked and not yet woken, it is
/// registered, and whenever it has something to take a notification is
/// still to come; the next notification wakes it.
pub proof fn lemma_parked_receiver_is_woken<T>(w: RecvWorld<T>, me: FullId)
    requires
        protocol_inv(w, me),
        w.phase is Parked,
        !w.woken,
    ensures
        w.waiters.contains(me),
        has_news(w) ==> w.pending > 0,
        step(w, RecvEvent::Notify, me).woken,
{
}

/// The invariant holds after any sequence of actions that starts between
/// steps and during which the round counter never wraps all the way around
/// while the receiver waits.
pub proof fn lemma_protocol_trace<T>(w: RecvWorld<T>, es: Seq<RecvEvent<T>>, me: FullId)
    requires
        protocol_inv(w, me),
        forall|i: int| 0 <= i < es.len() ==> enabled(#[trigger] run(w, es.take(i), me), es[i]),
        forall|i: int| 0 <= i < es.len() ==> (#[trigger] run(w, es.take(i), me)).since < usize::MAX,
    ensures
        protocol_inv(run(w, es, me), me),
    decreases es.len(),
{
    if es.len() > 0 {
        let last = es.len() - 1;
        let init = es.take(last);
        assert forall|i: int| 0 <= i < init.len() implies enabled(
            #[trigger] run(w, init.take(i), me),
            init[i],
        ) && run(w, init.take(i), me).since < usize::MAX by {
            assert(init.take(i) =~= es.take(i));
            assert(enabled(run(w, es.take(i), me), es[i]));
            assert(run(w, es.take(i), me).since < usize::MAX);
        }
        lemma_protocol_trace(w, init, me);
        assert(es.take(last) =~= init);
        assert(enabled(run(w, es.take(last), me), es[last]));
        assert(run(w, es.take(last), me).since < usize::MAX);
        lemma_protocol_step(run(w, init, me), es[last], me);
        assert(run(w, es, me) == step(run(w, init, me), es[last], me)) by {
            assert(es.drop_last() =~= init);
        }
    } else {
        assert(run(w, es, me) == w);
    }
}

/// The state after the actions `es` happen in turn, starting from `w`.
pub open spec fn run<T>(w: RecvWorld<T>, es: Seq<RecvEvent<T>>, me: FullId) -> RecvWorld<T>
    decreases es.len(),
{
    if es.len() == 0 {
        w
    } else {
        step(run(w, es.drop_last(), me), es.last(), me)
    }
}

/// Where the locking fiber is in its step.
pub ghost enum LockPhase {
    /// Between steps: about to synchronise with the round.
    Running,
    /// Synchronised at round `prev`; about to try the lock.
    Reset { prev: usize },
    /// Found the lock held after synchronising at round `prev`; about to
    /// register and read the round again.
    Checked { prev: usize },
    /// Suspended, waiting to be woken.
    Parked,
    /// Holds the lock.
    Holding,
}

/// The state of one mutex, its broadcast round, and one locking fiber.
pub ghost struct LockWorld<T> {
    /// The value in the lock; `None` while someone holds it.
    pub value: Option<T>,
    /// Whether a holder has panicked.
    pub poisoned: bool,
    /// Holders that released the lock and have yet to notify.
    pub pending: nat,
    /// The broadcast round.
    pub round: usize,
    /// The fibers registered to be woken by the next notification.
    pub waiters: Set<FullId>,
    /// Where the locking fiber is.
    pub phase: LockPhase,
    /// Notifications since the locking fiber last synchronised.
    pub since: nat,
    /// Whether a notification has handed out the fiber since it parked.
    pub woken: bool,
}

/// One atomic action of the locking fiber or of another holder.
pub ghost enum LockEvent<T> {
    /// Another fiber or thread takes the lock.
    OtherTake,
    /// Another holder puts `v` back (the first half of `unlock`).
    OtherRelease(T),
    /// A holder notifies (the second half of `unlock`).
    Notify,
    /// The fiber synchronises with the round.
    Reset,
    /// The fiber tries the lock.
    TryLock,
    /// The fiber registers and reads the round again.
    Wait,
    /// The parked fiber, woken, runs again.
    Resume,
}

/// Whether `e` can happen in `w`. Another holder releases only a lock that
/// is held, and not by the fiber itself.
pub open spec fn lock_enabled<T>(w: LockWorld<T>, e: LockEvent<T>) -> bool {
    match e {
        LockEvent::OtherTake => true,
        LockEvent::OtherRelease(_) => w.value is None && !(w.phase is Holding),
        LockEvent::Notify => true,
        LockEvent::Reset => w.phase is Running,
        LockEvent::TryLock => w.phase is Reset,
        LockEvent::Wait => w.phase is Checked,
        LockEvent::Resume => w.phase is Parked && w.woken,
    }
}

/// The state after `e` happens in `w`, for the locking fiber `me`.
pub open spec fn lock_step<T>(w: LockWorld<T>, e: LockEvent<T>, me: FullId) -> LockWorld<T> {
    match e {
        LockEvent::OtherTake => LockWorld { value: lock_outcome(w.value, w.poisoned).0, ..w },
        LockEvent::OtherRelease(v) => LockWorld {
            value: Some(v),
            pending: w.pending + 1,
            ..w
        },
        LockEvent::Notify => LockWorld {
            round: next_round(w.round),
            woken: w.woken || (w.phase is Parked && w.waiters.contains(me)),
            waiters: Set::empty(),
            pending: if w.pending > 0 { (w.pending - 1) as nat } else { 0 },
            since: w.since + 1,
            ..w
        },
        LockEvent::Reset => LockWorld { phase: LockPhase::Reset { prev: w.round }, since: 0, ..w },
        LockEvent::TryLock => {
            let (value, r) = lock_outcome(w.value, w.poisoned);
            let prev = w.phase->Reset_prev;
            LockWorld {
                value,
                phase: if r is WouldBlock {
                    LockPhase::Checked { prev }
                } else {
                    LockPhase::Holding
                },
                ..w
            }
        },
        LockEvent::Wait => {
            let prev = w.phase->Checked_prev;
            LockWorld {
                waiters: w.waiters.insert(me),
                phase: if observes(prev, w.round) {
                    LockPhase::Running
                } else {
                    LockPhase::Parked
                },
                woken: false,
                ..w
            }
        },
        LockEvent::Resume => LockWorld { phase: LockPhase::Running, woken: false, ..w },
    }
}

/// The invariant behind the locking protocol.
pub open spec fn lock_protocol_inv<T>(w: LockWorld<T>, me: FullId) -> bool {
    match w.phase {
        LockPhase::Running => true,
        LockPhase::Holding => w.value is None,
        LockPhase::Reset { prev } => w.round == rounds_after(prev, w.since),
        LockPhase::Checked { prev } => {
            &&& w.round == rounds_after(prev, w.since)
            &&& w.value is Some ==> (w.pending > 0 || w.since > 0)
        },
        LockPhase::Parked => {
            &&& (w.waiters.contains(me) || w.woken)
            &&& (!w.woken && w.value is Some) ==> w.pending > 0
        },
    }
}

/// Every action keeps the locking invariant, as long as the round counter
/// does not wrap all the way around while the fiber is between
/// synchronising and registering.
pub proof fn lemma_lock_protocol_step<T>(w: LockWorld<T>, e: LockEvent<T>, me: FullId)
    requires
        lock_protocol_inv(w, me),
        lock_enabled(w, e),
        w.since < usize::MAX,
    ensures
        lock_protocol_inv(lock_step(w, e, me), me),
{
    let w2 = lock_step(w, e, me);
    match e {
        LockEvent::Notify => {
            match w.phase {
                LockPhase::Reset { prev } => {
                    assert(w2.round == rounds_after(prev, w2.since));
                },
                LockPhase::Checked { prev } => {
                    assert(w2.round == rounds_after(prev, w2.since));
                },
                _ => {},
            }
        },
        LockEvent::Reset => {
            assert(w2.round == rounds_after(w.round, 0));
        },
        LockEvent::Wait => {
            let prev = w.phase->Checked_prev;
            if w.since > 0 {
                lemma_notifications_observed(prev, w.since);
            }
        },
        _ => {},
    }
}

/// No lost wake-up on a mutex: while the fiber is parked and not yet woken,
/// it is registered, and whenever the lock is free a notification is still
/// to come; the next notification wakes it. A fiber that holds the lock has
/// taken the value out of it.
pub proof fn lemma_parked_locker_is_woken<T>(w: LockWorld<T>, me: FullId)
    requires
        lock_protocol_inv(w, me),
        w.phase is Parked,
        !w.woken,
    ensures
        w.waiters.contains(me),
        w.value is Some ==> w.pending > 0,
        lock_step(w, LockEvent::Notify, me).woken,
{
}

/// Where the sending fiber is in its step.
pub ghost enum SendPhase {
    /// About to offer its value.
    Trying,
    /// Found the channel full; about to register and read the round again.
    Checked,
    /// Suspended, waiting to be woken.
    Parked,
}

/// The state of one bounded channel, its broadcast round, and one sending
/// fiber with the value it sends.
pub ghost struct SendWorld<T> {
    /// The queued values.
    pub items: Seq<T>,
    /// The channel's capacity.
    pub bound: usize,
    /// Whether the receiver waits in `recv` (which opens a rendezvous
    /// channel for one value).
    pub receiver_waiting: bool,
    /// Receives that took a value, or began to wait on a rendezvous channel,
    /// and have yet to notify.
    pub pending: nat,
    /// The broadcast round.
    pub round: usize,
    /// The fibers registered to be woken by the next notification.
    pub waiters: Set<FullId>,
    /// Where the sending fiber is.
    pub phase: SendPhase,
    /// The value being sent.
    pub value: T,
    /// The round the sending fiber last saw.
    pub prev: usize,
    /// Notifications since the sending fiber last saw the round.
    pub since: nat,
    /// Notifications since the sending fiber last found the channel full.
    pub since_try: nat,
    /// Whether a notification has handed out the fiber since it parked.
    pub woken: bool,
}

/// One atomic action of the sending fiber or of the receiver.
pub ghost enum SendEvent<T> {
    /// The receiver, in `recv` inside a coroutine, takes a value or finds
    /// none and waits (the first half of a receive).
    Take,
    /// Someone notifies (the second half of a receive or of a send).
    Notify,
    /// The fiber offers its value; on success it goes on with `next`.
    TrySend(T),
    /// The fiber registers and reads the round again.
    Wait,
    /// The parked fiber, woken, runs again.
    Resume,
}

/// Whether `e` can happen in `w`.
pub open spec fn send_enabled<T>(w: SendWorld<T>, e: SendEvent<T>) -> bool {
    match e {
        SendEvent::Take => true,
        SendEvent::Notify => true,
        SendEvent::TrySend(_) => w.phase is Trying,
        SendEvent::Wait => w.phase is Checked,
        SendEvent::Resume => w.phase is Parked && w.woken,
    }
}

/// The state after `e` happens in `w`, for the sending fiber `me`.
pub open spec fn send_step<T>(w: SendWorld<T>, e: SendEvent<T>, me: FullId) -> SendWorld<T> {
    match e {
        SendEvent::Take => {
            let (items, r) = recv_outcome(w.items, 1);
            let empty = r == Err::<T, TryRecvError>(TryRecvError::Empty);
            let newly_waiting = w.bound == 0 && !w.receiver_waiting && empty;
            SendWorld {
                items,
                receiver_waiting: empty,
                pending: if r is Ok || newly_waiting {
                    w.pending + 1
                } else {
                    w.pending
                },
                ..w
            }
        },
        SendEvent::Notify => SendWorld {
            round: next_round(w.round),
            woken: w.woken || (w.phase is Parked && w.waiters.contains(me)),
            waiters: Set::empty(),
            pending: if w.pending > 0 { (w.pending - 1) as nat } else { 0 },
            since: w.since + 1,
            since_try: w.since_try + 1,
            ..w
        },
        SendEvent::TrySend(next) => {
            let (items, r) = send_outcome(
                w.items,
                Some(w.bound),
                true,
                w.receiver_waiting,
                w.value,
            );
            if r is Ok {
                SendWorld {
                    items,
                    value: next,
                    receiver_waiting: waiting_after_send(Some(w.bound), w.receiver_waiting, r),
                    ..w
                }
            } else {
                SendWorld { phase: SendPhase::Checked, since_try: 0, ..w }
            }
        },
        SendEvent::Wait => {
            if observes(w.prev, w.round) {
                SendWorld {
                    waiters: w.waiters.insert(me),
                    phase: SendPhase::Trying,
                    prev: w.round,
                    since: 0,
                    ..w
                }
            } else {
                SendWorld {
                    waiters: w.waiters.insert(me),
                    phase: SendPhase::Parked,
                    woken: false,
                    ..w
                }
            }
        },
        SendEvent::Resume => SendWorld { phase: SendPhase::Trying, woken: false, ..w },
    }
}

/// Whether the channel has room for the sending fiber's value.
pub open spec fn has_space<T>(w: SendWorld<T>) -> bool {
    has_room(w.items.len(), Some(w.bound), w.receiver_waiting)
}

/// The invariant behind the sending protocol.
pub open spec fn send_protocol_inv<T>(w: SendWorld<T>, me: FullId) -> bool {
    &&& w.round == rounds_after(w.prev, w.since)
    &&& match w.phase {
        SendPhase::Trying => true,
        SendPhase::Checked => {
            &&& w.since_try <= w.since
            &&& has_space(w) ==> (w.pending > 0 || w.since_try > 0)
        },
        SendPhase::Parked => {
            &&& (w.waiters.contains(me) || w.woken)
            &&& (!w.woken && has_space(w)) ==> w.pending > 0
        },
    }
}

/// Every action keeps the sending invariant, as long as the round counter
/// does not wrap all the way around since the fiber last saw it.
pub proof fn lemma_send_protocol_step<T>(w: SendWorld<T>, e: SendEvent<T>, me: FullId)
    requires
        send_protocol_inv(w, me),
        send_enabled(w, e),
        w.since < usize::MAX,
    ensures
        send_protocol_inv(send_step(w, e, me), me),
{
    let w2 = send_step(w, e, me);
    match e {
        SendEvent::Notify => {
            assert(w2.round == rounds_after(w.prev, w2.since));
        },
        SendEvent::Wait => {
            if w.since > 0 {
                lemma_notifications_observed(w.prev, w.since);
                assert(w2.round == rounds_after(w2.prev, 0));
            }
        },
        _ => {},
    }
}

/// No lost wake-up for a sender on a full bounded channel: while the fiber is
/// parked and not yet woken, it is registered, and whenever there is room a
/// notification is still to come; the next notification wakes it.
pub proof fn lemma_parked_sender_is_woken<T>(w: SendWorld<T>, me: FullId)
    requires
        send_protocol_inv(w, me),
        w.phase is Parked,
        !w.woken,
    ensures
        w.waiters.contains(me),
        has_space(w) ==> w.pending > 0,
        send_step(w, SendEvent::Notify, me).woken,
{
}

} // verus!
