//! Spreading fibers over the event loops of a runtime instance, and routing
//! wake-ups to the loop that runs a fiber.
//!
//! New fibers go to the loops in turn: a shared counter, advanced (and
//! wrapping around) on every spawn, picks the loop as its remainder modulo
//! the number of loops.

use vstd::prelude::*;
use vstd::rwlock::*;
use crate::{available_cpus, FullId, LoopId};
use crate::event_loop::LoopMsg;

verus! {

/// The spawn counter after `c`: it wraps around at `usize::MAX`.
pub open spec fn next_counter(c: usize) -> usize {
    if c == usize::MAX {
        0
    } else {
        (c + 1) as usize
    }
}

/// Given the spawn counter `counter` and `num_loops` loops, returns the loop
/// the next fiber goes to, `counter % num_loops`, and the advanced counter.
pub fn next_spawn(counter: usize, num_loops: usize) -> (r: (usize, usize))
    requires
        num_loops > 0,
    ensures
        r.0 == counter % num_loops,
        r.0 < num_loops,
        r.1 == next_counter(counter),
{
    let next = if counter == usize::MAX {
        0
    } else {
        counter + 1
    };
    (counter % num_loops, next)
}

/// The lock predicate of the spawn counter: it accepts every value.
pub struct AnyCount;

impl RwLockPredicate<usize> for AnyCount {
    open spec fn inv(self, v: usize) -> bool {
        true
    }
}

/// What `yield_now` does.
#[derive(Clone, Copy, PartialEq, Eq, Structural, Debug)]
pub enum YieldAction {
    /// Queue a wake-up of this fiber on its own loop, then switch out of it,
    /// so that the loop runs others first.
    Reschedule(FullId),
    /// Not in a coroutine: yield the thread to the operating system.
    ThreadYield,
}

/// Yields the current coroutine, whose id is `current`: inside a coroutine it
/// reschedules itself behind whatever its loop has queued; outside one the
/// thread yields.
pub fn yield_now(current: FullId) -> (a: YieldAction)
    ensures
        a == (if current.loop_.is_none() {
            YieldAction::ThreadYield
        } else {
            YieldAction::Reschedule(current)
        }),
{
    if crate::in_coroutine(current.loop_) {
        YieldAction::Reschedule(current)
    } else {
        YieldAction::ThreadYield
    }
}

/// A runtime instance's dispatch state: its number of loops and the spawn
/// counter.
pub struct Mioco {
    spawn_tx_i: RwLock<usize, AnyCount>,
    num_threads: usize,
}

impl Mioco {
    #[verifier::type_invariant]
    closed spec fn has_loops(&self) -> bool {
        self.num_threads >= 1
    }

    /// The number of loops.
    pub closed spec fn loops(&self) -> nat {
        self.num_threads as nat
    }

    /// A runtime with `num_threads` loops and the spawn counter at 0.
    pub fn new(num_threads: usize) -> (m: Mioco)
        requires
            num_threads >= 1,
        ensures
            m.loops() == num_threads,
    {
        Mioco { spawn_tx_i: RwLock::new(0, Ghost(AnyCount)), num_threads }
    }

    /// A runtime with one loop per available CPU (at least one) and the
    /// spawn counter at 0.
    pub fn with_cpus() -> (m: Mioco)
        ensures
            m.loops() >= 1,
    {
        Mioco::new(available_cpus())
    }

    /// The number of loops.
    pub fn num_threads(&self) -> (n: usize)
        ensures
            n == self.loops(),
            n >= 1,
    {
        proof {
            use_type_invariant(self);
        }
        self.num_threads
    }

    /// Picks the loop for a new fiber and advances the shared counter (see
    /// `next_spawn`). The caller sends the fiber to that loop.
    pub fn spawn_target(&self) -> (i: usize)
        ensures
            i < self.loops(),
    {
        proof {
            use_type_invariant(self);
        }
        let (counter, handle) = self.spawn_tx_i.acquire_write();
        let (i, next) = next_spawn(counter, self.num_threads);
        handle.release_write(next);
        i
    }

    /// Where to send a wake-up for fiber `id`: to its loop, as a `Wake`
    /// message; nowhere when `id` belongs to no loop.
    pub fn wake(&self, id: FullId) -> (r: Option<(usize, LoopMsg)>)
        requires
            id.loop_.is_none() || id.loop_.0 < self.loops(),
        ensures
            r == (if id.loop_.is_none() {
                None
            } else {
                Some((id.loop_.0, LoopMsg::Wake(id.fiber)))
            }),
    {
        if id.loop_.0 != usize::MAX {
            Some((id.loop_.0, LoopMsg::Wake(id.fiber)))
        } else {
            None
        }
    }
}

/// The loop that the `i`-th spawn after the counter stood at `c` goes to,
/// while the counter does not wrap.
pub open spec fn nth_spawn_slot(c: usize, i: nat, n: usize) -> int {
    (c + i) % (n as int)
}

/// Round robin: while the counter does not wrap, the next spawn goes to the
/// loop after the previous one, cyclically.
pub proof fn lemma_round_robin(c: usize, n: usize)
    requires
        n > 0,
        c < usize::MAX,
    ensures
        next_counter(c) % n == (c % n + 1) % (n as int),
{
    vstd::arithmetic::div_mod::lemma_add_mod_noop(c as int, 1, n as int);
    if n > 1 {
        vstd::arithmetic::div_mod::lemma_small_mod(1, n as nat);
    } else {
        vstd::arithmetic::div_mod::lemma_mod_self_0(1);
        assert((c % n + 1) % (n as int) == 0) by (nonlinear_arith)
            requires
                n == 1,
        ;
        assert((c + 1) % (n as int) == 0) by (nonlinear_arith)
            requires
                n == 1,
        ;
    }
}

/// Fairness: while the counter does not wrap, any `n` consecutive spawns
/// reach every one of the `n` loops.
pub proof fn lemma_spawns_reach_every_loop(c: usize, n: usize, t: usize)
    requires
        n > 0,
        t < n,
        c + n <= usize::MAX,
    ensures
        exists|i: nat| i < n && #[trigger] nth_spawn_slot(c, i, n) == t,
{
    let r = c % n;
    let q = c / n;
    vstd::arithmetic::div_mod::lemma_fundamental_div_mod(c as int, n as int);
    assert(c == n * q + r);
    if t >= r {
        let i: nat = (t - r) as nat;
        assert(c + i == q * n + t) by (nonlinear_arith)
            requires
                c == n * q + r,
                i == t - r,
        ;
        vstd::arithmetic::div_mod::lemma_fundamental_div_mod_converse_mod(c + i, n as int, q as int, t as int);
        assert(nth_spawn_slot(c, i, n) == t);
    } else {
        let i: nat = (t + n - r) as nat;
        assert(c + i == (q + 1) * n + t) by (nonlinear_arith)
            requires
                c == n * q + r,
                i == t + n - r,
        ;
        vstd::arithmetic::div_mod::lemma_fundamental_div_mod_converse_mod(c + i, n as int, (q + 1) as int, t as int);
        assert(nth_spawn_slot(c, i, n) == t);
    }
}

} // verus!
