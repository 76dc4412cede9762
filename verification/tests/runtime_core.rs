use mioco::dispatch::{next_spawn, yield_now, Mioco, YieldAction};
use mioco::event_loop::{Loop, LoopAction, LoopMsg, FIBER_SLOTS, QUEUE_TOKEN};
use mioco::evented::{AsyncIO, Interest, IoStep, RegAction};
use mioco::{in_coroutine, thread_num, FiberId, FullId, LoopId};

fn fiber(l: usize, f: usize) -> FullId {
    FullId { loop_: LoopId(l), fiber: FiberId(f) }
}

#[test]
fn coroutine_detection() {
    assert!(!in_coroutine(LoopId(usize::MAX)));
    assert!(!in_coroutine(LoopId::none()));
    assert!(in_coroutine(LoopId(0)));
    assert!(in_coroutine(LoopId(3)));
}

#[test]
fn thread_num_is_positive() {
    let m = Mioco::with_cpus();
    assert!(thread_num(&m) >= 1);
    assert_eq!(thread_num(&m), m.num_threads());
    assert_eq!(thread_num(&Mioco::new(3)), 3);
}

#[test]
fn spawns_go_round_robin() {
    let m = Mioco::new(3);
    let targets: Vec<usize> = (0..7).map(|_| m.spawn_target()).collect();
    assert_eq!(targets, vec![0, 1, 2, 0, 1, 2, 0]);
    assert_eq!(next_spawn(10, 4), (2, 11));
    assert_eq!(next_spawn(usize::MAX, 4), (3, 0));
}

#[test]
fn wake_goes_to_the_fibers_loop() {
    let m = Mioco::new(2);
    assert_eq!(m.wake(fiber(1, 9)), Some((1, LoopMsg::Wake(FiberId(9)))));
    assert_eq!(m.wake(FullId::outside()), None);
}

#[test]
fn yield_reschedules_only_inside_coroutines() {
    assert_eq!(yield_now(fiber(0, 4)), YieldAction::Reschedule(fiber(0, 4)));
    assert_eq!(yield_now(FullId::outside()), YieldAction::ThreadYield);
}

#[test]
fn loop_spawns_wakes_and_retires_fibers() {
    let mut l = Loop::new(LoopId(0));
    assert_eq!(l.loop_id(), LoopId(0));
    let a = match l.handle_msg(LoopMsg::Spawn) {
        LoopAction::Resume(f) => f,
        other => panic!("unexpected {:?}", other),
    };
    let b = match l.handle_msg(LoopMsg::Spawn) {
        LoopAction::Resume(f) => f,
        other => panic!("unexpected {:?}", other),
    };
    assert_ne!(a, b);
    assert_eq!(l.handle_msg(LoopMsg::Wake(a)), LoopAction::Resume(a));
    assert_eq!(l.handle_event(a.0, true), LoopAction::Resume(a));
    assert_eq!(l.handle_event(QUEUE_TOKEN, true), LoopAction::PollQueue);
    assert_eq!(l.handle_event(QUEUE_TOKEN, false), LoopAction::Ignore);
    assert!(!l.fiber_suspended(a, 0));
    assert_eq!(l.handle_msg(LoopMsg::Wake(a)), LoopAction::Resume(a));
    assert!(l.fiber_suspended(a, 1));
    assert_eq!(l.handle_msg(LoopMsg::Wake(a)), LoopAction::Ignore);
    assert_eq!(l.handle_event(a.0, true), LoopAction::Ignore);
    assert_eq!(l.handle_msg(LoopMsg::Wake(b)), LoopAction::Resume(b));
    assert_eq!(l.handle_msg(LoopMsg::Wake(FiberId(500))), LoopAction::Ignore);
}

#[test]
fn loop_runs_out_of_slots() {
    let mut l = Loop::new(LoopId(1));
    for _ in 0..FIBER_SLOTS {
        assert!(matches!(l.handle_msg(LoopMsg::Spawn), LoopAction::Resume(_)));
    }
    assert_eq!(l.handle_msg(LoopMsg::Spawn), LoopAction::OutOfSlots);
    assert!(l.fiber_suspended(FiberId(17), 1));
    assert_eq!(l.handle_msg(LoopMsg::Spawn), LoopAction::Resume(FiberId(17)));
}

#[test]
fn registration_follows_the_waiting_fiber() {
    let mut io = AsyncIO::new(5u8);
    let a = fiber(0, 3);
    assert_eq!(
        io.notify_on(a, Interest::Readable),
        RegAction::Register { loop_: LoopId(0), token: 3, interest: Interest::Readable }
    );
    assert_eq!(io.notify_on(a, Interest::Readable), RegAction::Keep);
    assert_eq!(
        io.notify_on(a, Interest::Writable),
        RegAction::Reregister { loop_: LoopId(0), token: 3, interest: Interest::Writable }
    );
    let b = fiber(0, 8);
    assert_eq!(
        io.notify_on(b, Interest::Writable),
        RegAction::Reregister { loop_: LoopId(0), token: 3, interest: Interest::Writable }
    );
    let c = fiber(2, 1);
    assert_eq!(
        io.notify_on(c, Interest::Readable),
        RegAction::Move { from: LoopId(0), to: LoopId(2), token: 1, interest: Interest::Readable }
    );
    assert_eq!(*io.io(), 5);
}

#[test]
fn io_blocks_only_inside_coroutines() {
    let mut io = AsyncIO::new(());
    assert_eq!(io.after_io(FullId::outside(), true, Interest::Readable), IoStep::Return);
    assert_eq!(io.after_io(fiber(0, 2), false, Interest::Readable), IoStep::Return);
    assert_eq!(
        io.after_io(fiber(0, 2), true, Interest::Writable),
        IoStep::Block(RegAction::Register { loop_: LoopId(0), token: 2, interest: Interest::Writable })
    );
    assert_eq!(io.after_accept(fiber(0, 2), false), IoStep::Return);
    assert_eq!(
        io.after_accept(fiber(0, 2), true),
        IoStep::Block(RegAction::Reregister { loop_: LoopId(0), token: 2, interest: Interest::Readable })
    );
}
