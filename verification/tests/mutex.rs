//! Mutex scenarios: many lockers, inside coroutines (fiber ids on loops) and
//! outside them, each taking the lock to increment a counter.

use mioco::sync::Mutex;
use mioco::{FiberId, FullId, LoopId, Step};

fn increment(counter: &Mutex<usize>, me: FullId) {
    let mut waiter = counter.waiter();
    let mut woken = Vec::new();
    loop {
        match counter.lock(&mut waiter, me) {
            Step::Done(Ok(mut guard)) => {
                *guard.get_mut() += 1;
                guard.unlock(false, &mut woken);
                return;
            }
            Step::Done(Err(_)) => panic!("poisoned"),
            Step::Park(()) | Step::Retry(()) => panic!("nobody else holds the lock"),
        }
    }
}

fn total(counter: &Mutex<usize>) -> usize {
    let mut waiter = counter.waiter();
    match counter.lock(&mut waiter, FullId::outside()) {
        Step::Done(Ok(guard)) => *guard.get(),
        _ => panic!("the lock is free"),
    }
}

#[test]
fn mioco_mutex_basic() {
    let counter = Mutex::new(0usize);

    const FIBERS_NUM: usize = 64;
    const ITER_NUM: usize = 16 * 1024;

    for fib in 0..FIBERS_NUM {
        let me = FullId { loop_: LoopId(fib % 4), fiber: FiberId(fib) };
        for _ in 0..ITER_NUM {
            increment(&counter, me);
        }
    }

    assert_eq!(total(&counter), FIBERS_NUM * ITER_NUM);
}

#[test]
fn mioco_and_threads_mutex_basic() {
    let counter = Mutex::new(0usize);

    const FIBERS_NUM: usize = 64;
    const THREADS_NUM: usize = 64;
    const ITER_NUM: usize = 16 * 1024;

    for fib in 0..FIBERS_NUM {
        let me = FullId { loop_: LoopId(fib % 4), fiber: FiberId(fib) };
        for _ in 0..ITER_NUM {
            increment(&counter, me);
        }
    }
    for _ in 0..THREADS_NUM {
        for _ in 0..ITER_NUM {
            increment(&counter, FullId::outside());
        }
    }

    assert_eq!(total(&counter), (FIBERS_NUM + THREADS_NUM) * ITER_NUM);
}
