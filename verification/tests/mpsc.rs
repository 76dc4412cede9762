//! Channel scenarios: a sending side and a receiving side, inside a
//! coroutine (a fiber id on a loop) or outside one, driven step by step.

use mioco::sync::mpsc::{channel, sync_channel, Receiver, SyncReceiver, SyncSender};
use mioco::{FiberId, FullId, LoopId, Step};

fn fiber(l: usize, f: usize) -> FullId {
    FullId { loop_: LoopId(l), fiber: FiberId(f) }
}

/// Receives as fiber `me`, counting how often it had to park.
fn recv_as<T>(rx: &mut Receiver<T>, me: FullId, parks: &mut usize) -> T {
    loop {
        match rx.recv(me) {
            Step::Done(r) => return r.unwrap(),
            Step::Park(()) => *parks += 1,
            Step::Retry(()) => {}
        }
    }
}

/// Runs a bounded sender of `0..n` and a receiver, taking turns: the sender
/// sends until told to park, the receiver takes one value per turn. A parked
/// fiber runs again only once the channel hands it out to be woken; a parked
/// plain thread tries again on its next turn. Returns what the receiver got.
fn run_bounded(tx: &mut SyncSender<usize>, rx: &mut SyncReceiver<usize>, s_id: FullId, r_id: FullId, n: usize) -> Vec<usize> {
    let mut next = 0;
    let mut got = Vec::new();
    let mut s_parked = false;
    let mut r_parked = false;
    let mut woken = Vec::new();
    let mut turns = 0;
    while got.len() < n {
        turns += 1;
        assert!(turns < 10_000, "no progress");
        while !s_parked && next < n {
            match tx.send(next, s_id, &mut woken) {
                Step::Done(r) => {
                    assert!(r.is_ok());
                    next += 1;
                }
                Step::Park(_) => s_parked = true,
                Step::Retry(_) => {}
            }
        }
        if !r_parked {
            match rx.recv(r_id, &mut woken) {
                Step::Done(r) => got.push(r.unwrap()),
                Step::Park(()) => r_parked = true,
                Step::Retry(()) => {}
            }
        }
        if s_id.loop_ == LoopId::none() {
            // A plain thread that parked has only yielded: it tries again.
            s_parked = false;
        }
        for id in woken.drain(..) {
            if id == s_id {
                s_parked = false;
            }
            if id == r_id {
                r_parked = false;
            }
        }
        assert!(!(s_parked && r_parked), "both sides parked: a wake-up was lost");
    }
    got
}

#[test]
fn tx_rx_outside_mioco() {
    let (tx, mut rx) = channel::<usize>();
    let mut woken = Vec::new();
    for i in 0..10 {
        let _ = tx.send(i, &mut woken);
    }
    let mut parks = 0;
    for i in 0..10 {
        assert_eq!(i, recv_as(&mut rx, FullId::outside(), &mut parks));
    }
    assert_eq!(parks, 0);
}

#[test]
fn tx_outside_rx_inside_mioco() {
    let (tx, mut rx) = channel::<usize>();
    let (sync_tx, mut sync_rx) = channel();
    let mut woken = Vec::new();
    for i in 0..10 {
        let _ = tx.send(i, &mut woken);
    }
    let me = fiber(0, 0);
    let mut parks = 0;
    for i in 0..10 {
        assert_eq!(i, recv_as(&mut rx, me, &mut parks));
    }
    let _ = sync_tx.send(true, &mut woken);
    assert_eq!(true, recv_as(&mut sync_rx, FullId::outside(), &mut parks));
}

#[test]
fn tx_inside_rx_inside_mioco() {
    let (tx, mut rx) = channel::<usize>();
    let (sync_tx, mut sync_rx) = channel();
    let receiver = fiber(1, 0);
    assert!(matches!(rx.recv(receiver), Step::Park(())));
    let mut woken = Vec::new();
    for i in 0..10 {
        let _ = tx.send(i, &mut woken);
        if i == 0 {
            assert_eq!(woken, vec![receiver]);
        }
    }
    tx.disconnect(&mut woken);
    let mut parks = 0;
    for i in 0..10 {
        assert_eq!(i, recv_as(&mut rx, receiver, &mut parks));
    }
    let _ = sync_tx.send(true, &mut woken);
    assert_eq!(true, recv_as(&mut sync_rx, FullId::outside(), &mut parks));
}

#[test]
fn sync_tx_rx_outside_mioco() {
    let (mut tx, mut rx) = sync_channel::<usize>(5);
    let got = run_bounded(&mut tx, &mut rx, FullId::outside(), fiber(0, 0), 10);
    assert_eq!(got, (0..10).collect::<Vec<usize>>());
}

#[test]
fn sync_tx_outside_rx_inside_mioco() {
    let (mut tx, mut rx) = sync_channel::<usize>(5);
    let got = run_bounded(&mut tx, &mut rx, FullId::outside(), fiber(1, 4), 10);
    for i in 0..10 {
        assert_eq!(i, got[i]);
    }
}

#[test]
fn sync_tx_inside_rx_inside_mioco() {
    let (mut tx, mut rx) = sync_channel::<usize>(5);
    let got = run_bounded(&mut tx, &mut rx, fiber(0, 1), fiber(1, 2), 10);
    for i in 0..10 {
        assert_eq!(i, got[i]);
    }
}

#[test]
fn sync_channel_of_one_alternates() {
    let (mut tx, mut rx) = sync_channel::<usize>(1);
    let got = run_bounded(&mut tx, &mut rx, fiber(0, 1), fiber(0, 2), 25);
    assert_eq!(got, (0..25).collect::<Vec<usize>>());
}

#[test]
fn sync_channel_of_zero_hands_over_to_a_waiting_receiver() {
    let (tx, mut rx) = sync_channel::<usize>(0);
    let mut woken = Vec::new();
    assert!(matches!(tx.try_send(1, &mut woken), Err(mioco::sync::mpsc::TrySendError::Full(1))));
    assert!(matches!(rx.recv(FullId::outside(), &mut woken), Step::Park(())));
    assert!(tx.try_send(1, &mut woken).is_ok());
    assert!(matches!(tx.try_send(2, &mut woken), Err(mioco::sync::mpsc::TrySendError::Full(2))));
    assert!(matches!(rx.recv(FullId::outside(), &mut woken), Step::Done(Ok(1))));
    assert!(matches!(tx.try_send(2, &mut woken), Err(mioco::sync::mpsc::TrySendError::Full(2))));
}

#[test]
fn sync_channel_of_zero_wakes_a_parked_sender_when_the_receiver_waits() {
    let (mut tx, mut rx) = sync_channel::<usize>(0);
    let sender = fiber(0, 1);
    let receiver = fiber(1, 1);
    let mut woken = Vec::new();
    assert!(matches!(tx.send(5, sender, &mut woken), Step::Park(5)));
    assert!(woken.is_empty());
    assert!(!matches!(rx.recv(receiver, &mut woken), Step::Done(_)));
    assert_eq!(woken, vec![sender]);
    woken.clear();
    assert!(matches!(tx.send(5, sender, &mut woken), Step::Done(Ok(()))));
    match rx.recv(receiver, &mut woken) {
        Step::Done(Ok(v)) => assert_eq!(v, 5),
        _ => panic!("the handed-over value did not arrive"),
    }
}

#[test]
fn sync_channel_of_zero_delivers_in_order() {
    let (mut tx, mut rx) = sync_channel::<usize>(0);
    let got = run_bounded(&mut tx, &mut rx, fiber(0, 1), fiber(1, 2), 12);
    assert_eq!(got, (0..12).collect::<Vec<usize>>());
    let (mut tx, mut rx) = sync_channel::<usize>(0);
    let got = run_bounded(&mut tx, &mut rx, FullId::outside(), fiber(1, 2), 12);
    assert_eq!(got, (0..12).collect::<Vec<usize>>());
}
