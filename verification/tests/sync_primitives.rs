use mioco::sync::broadcast::notify_channel;
use mioco::sync::mpsc::{channel, sync_channel, RecvError, SendError, TryRecvError, TrySendError};
use mioco::sync::mpsc::{recv_step, send_step};
use mioco::sync::mutex::{lock_step, PoisonError, TryLock};
use mioco::sync::Mutex;
use mioco::{FiberId, FullId, LoopId, Step};

fn fiber(l: usize, f: usize) -> FullId {
    FullId { loop_: LoopId(l), fiber: FiberId(f) }
}

fn recv_outside<T>(rx: &mut mioco::sync::mpsc::Receiver<T>) -> Result<T, RecvError> {
    match rx.recv(FullId::outside()) {
        Step::Done(r) => r,
        _ => panic!("expected a value or a hang-up"),
    }
}

#[test]
fn broadcast_try_wait_sees_each_notify_once() {
    let (tx, mut rx) = notify_channel();
    assert!(!rx.try_wait());
    let woken = tx.notify();
    assert!(woken.is_empty());
    assert!(rx.try_wait());
    assert!(!rx.try_wait());
}

#[test]
fn broadcast_reset_forgets_earlier_notifies() {
    let (tx, mut rx) = notify_channel();
    tx.notify();
    tx.notify();
    rx.reset();
    assert!(!rx.try_wait());
    tx.clone().notify();
    assert!(rx.try_wait());
}

#[test]
fn broadcast_wakes_every_waiter_once() {
    let (tx, mut rx) = notify_channel();
    let mut rx2 = rx.clone();
    let a = fiber(0, 1);
    let b = fiber(1, 7);
    assert!(!rx.wait(a));
    assert!(!rx.wait(a));
    assert!(!rx2.wait(b));
    let mut woken = tx.notify();
    woken.sort_by_key(|id| (id.loop_.0, id.fiber.0));
    assert_eq!(woken, vec![a, b]);
    assert!(tx.notify().is_empty());
    assert!(rx.wait(a));
    assert!(rx2.wait(b));
}

#[test]
fn channel_delivers_in_send_order() {
    let (tx, mut rx) = channel::<usize>();
    let mut woken = Vec::new();
    for i in 0..10 {
        assert!(tx.send(i, &mut woken).is_ok());
    }
    for i in 0..10 {
        assert_eq!(i, recv_outside(&mut rx).unwrap());
    }
    assert_eq!(rx.try_recv(), Err(TryRecvError::Empty));
    assert!(matches!(rx.recv(FullId::outside()), Step::Park(())));
}

#[test]
fn channel_drains_before_reporting_disconnect() {
    let (tx, mut rx) = channel::<u32>();
    let tx2 = tx.clone();
    let mut woken = Vec::new();
    tx.send(5, &mut woken).ok().unwrap();
    tx2.send(6, &mut woken).ok().unwrap();
    tx.disconnect(&mut woken);
    assert_eq!(rx.try_recv(), Ok(5));
    tx2.disconnect(&mut woken);
    assert_eq!(recv_outside(&mut rx), Ok(6));
    assert_eq!(rx.try_recv(), Err(TryRecvError::Disconnected));
    assert_eq!(recv_outside(&mut rx), Err(RecvError));
}

#[test]
fn channel_send_fails_after_receiver_closes() {
    let (tx, rx) = channel::<String>();
    rx.close();
    let mut woken = Vec::new();
    match tx.send("lost".to_string(), &mut woken) {
        Err(SendError(v)) => assert_eq!(v, "lost"),
        Ok(()) => panic!("send to a closed channel succeeded"),
    }
    assert!(woken.is_empty());
}

#[test]
fn channel_receiver_in_coroutine_parks_and_is_woken() {
    let (tx, mut rx) = channel::<u8>();
    let me = fiber(2, 3);
    assert!(matches!(rx.recv(me), Step::Park(())));
    let mut woken = Vec::new();
    tx.send(42, &mut woken).ok().unwrap();
    assert_eq!(woken, vec![me]);
    match rx.recv(me) {
        Step::Done(Ok(v)) => assert_eq!(v, 42),
        _ => panic!("expected the sent value"),
    }
}

#[test]
fn sync_channel_holds_at_most_its_capacity() {
    let (mut tx, mut rx) = sync_channel::<usize>(5);
    let mut woken = Vec::new();
    for i in 0..5 {
        assert!(tx.try_send(i, &mut woken).is_ok());
    }
    match tx.try_send(99, &mut woken) {
        Err(TrySendError::Full(v)) => assert_eq!(v, 99),
        _ => panic!("a full channel took a value"),
    }
    let me = fiber(0, 0);
    match tx.send(99, me, &mut woken) {
        Step::Park(v) | Step::Retry(v) => assert_eq!(v, 99),
        Step::Done(_) => panic!("a full channel took a value"),
    }
    match rx.recv(fiber(1, 0), &mut woken) {
        Step::Done(Ok(v)) => assert_eq!(v, 0),
        _ => panic!("expected the oldest value"),
    }
    assert!(woken.contains(&me));
    assert!(matches!(tx.send(99, me, &mut woken), Step::Done(Ok(()))));
    for i in 1..5 {
        assert_eq!(rx.try_recv(), Ok(i));
    }
    assert_eq!(rx.try_recv(), Ok(99));
}

#[test]
fn sync_channel_reports_gone_ends() {
    let (tx, rx) = sync_channel::<u8>(2);
    let mut woken = Vec::new();
    rx.close();
    match tx.try_send(1, &mut woken) {
        Err(TrySendError::Disconnected(v)) => assert_eq!(v, 1),
        _ => panic!("a closed channel took a value"),
    }
    let (tx, mut rx) = sync_channel::<u8>(2);
    tx.disconnect(&mut woken);
    assert!(matches!(rx.recv(FullId::outside(), &mut woken), Step::Done(Err(RecvError))));
}

#[test]
fn mutex_excludes_second_locker_until_release() {
    let m = Mutex::new(String::from("a"));
    let mut w1 = m.waiter();
    let mut w2 = m.waiter();
    let first = match m.lock(&mut w1, fiber(0, 1)) {
        Step::Done(Ok(g)) => g,
        _ => panic!("a free mutex was not taken"),
    };
    let other = fiber(1, 2);
    assert!(matches!(m.lock(&mut w2, other), Step::Park(())));
    assert!(matches!(m.lock(&mut w2, FullId::outside()), Step::Park(())));
    let mut first = first;
    first.replace(String::from("b"));
    let mut woken = Vec::new();
    first.unlock(false, &mut woken);
    assert_eq!(woken, vec![other]);
    match m.lock(&mut w2, other) {
        Step::Done(Ok(g)) => assert_eq!(g.get(), "b"),
        _ => panic!("a released mutex was not taken"),
    }
}

#[test]
fn mutex_poisoned_by_panicking_holder() {
    let m = Mutex::new(7u32);
    let mut w = m.waiter();
    let mut woken = Vec::new();
    match m.lock(&mut w, FullId::outside()) {
        Step::Done(Ok(g)) => g.unlock(true, &mut woken),
        _ => panic!("a free mutex was not taken"),
    }
    for _ in 0..2 {
        match m.lock(&mut w, FullId::outside()) {
            Step::Done(Err(e)) => {
                let e: PoisonError<_> = e;
                let g = e.into_inner();
                assert_eq!(*g.get(), 7);
                g.unlock(false, &mut woken);
            }
            _ => panic!("poison was not reported"),
        }
    }
}

#[test]
fn receiving_step_decisions() {
    assert!(matches!(recv_step(Ok::<u8, TryRecvError>(4), true, true), Step::Done(Ok(4))));
    assert!(matches!(recv_step::<u8>(Err(TryRecvError::Disconnected), true, true), Step::Done(Err(RecvError))));
    assert!(matches!(recv_step::<u8>(Err(TryRecvError::Empty), true, true), Step::Retry(())));
    assert!(matches!(recv_step::<u8>(Err(TryRecvError::Empty), true, false), Step::Park(())));
    assert!(matches!(recv_step::<u8>(Err(TryRecvError::Empty), false, true), Step::Park(())));
}

#[test]
fn sending_step_decisions() {
    assert!(matches!(send_step::<u8>(Ok(()), true, false), Step::Done(Ok(()))));
    assert!(matches!(send_step(Err(TrySendError::Disconnected(3u8)), true, true), Step::Done(Err(SendError(3)))));
    assert!(matches!(send_step(Err(TrySendError::Full(3u8)), true, true), Step::Retry(3)));
    assert!(matches!(send_step(Err(TrySendError::Full(3u8)), true, false), Step::Park(3)));
    assert!(matches!(send_step(Err(TrySendError::Full(3u8)), false, true), Step::Park(3)));
}

#[test]
fn locking_step_decisions() {
    assert!(matches!(lock_step(TryLock::Acquired(7u8), true, true), Step::Done(Ok(7))));
    match lock_step(TryLock::Poisoned(7u8), false, false) {
        Step::Done(Err(e)) => assert_eq!(e.into_inner(), 7),
        _ => panic!("poison was not reported"),
    }
    assert!(matches!(lock_step::<u8>(TryLock::WouldBlock, true, true), Step::Retry(())));
    assert!(matches!(lock_step::<u8>(TryLock::WouldBlock, true, false), Step::Park(())));
    assert!(matches!(lock_step::<u8>(TryLock::WouldBlock, false, true), Step::Park(())));
}

#[test]
fn fresh_mutex_locks_at_once_with_its_value() {
    let m = Mutex::new(5usize);
    let mut w = m.waiter();
    match m.lock(&mut w, FullId::outside()) {
        Step::Done(Ok(g)) => assert_eq!(*g.get(), 5),
        _ => panic!("a fresh mutex was not free"),
    }
}
