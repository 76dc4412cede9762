//! A coroutine runtime core: event-loop bookkeeping, fiber dispatch and
//! coroutine-aware synchronisation primitives, with their contracts.

use vstd::prelude::*;

pub mod dispatch;
pub mod evented;
pub mod event_loop;
pub mod slab_spec;
pub mod sync;

pub use dispatch::yield_now;
pub use evented::AsyncIO;

verus! {

/// Identifies one event loop (one OS thread) of a runtime instance.
#[derive(Clone, Copy, PartialEq, Eq, Structural, Debug, Hash)]
pub struct LoopId(pub usize);

/// Identifies one fiber (coroutine) inside its event loop: the slot it occupies.
#[derive(Clone, Copy, PartialEq, Eq, Structural, Debug, Hash)]
pub struct FiberId(pub usize);

/// A fiber together with the loop that runs it.
#[derive(Clone, Copy, PartialEq, Eq, Structural, Debug, Hash)]
pub struct FullId {
    pub loop_: LoopId,
    pub fiber: FiberId,
}

impl LoopId {
    /// The loop id seen by code that runs on no event loop.
    pub fn none() -> (r: LoopId)
        ensures
            r.is_none(),
    {
        LoopId(usize::MAX)
    }

    /// Whether this is the id of "no loop".
    pub open spec fn is_none(self) -> bool {
        self.0 == usize::MAX
    }
}

impl FiberId {
    /// The fiber id seen by code that runs in no fiber.
    pub fn none() -> (r: FiberId)
        ensures
            r.0 == usize::MAX,
    {
        FiberId(usize::MAX)
    }
}

impl FullId {
    /// The id seen by code that runs outside every coroutine.
    pub fn outside() -> (r: FullId)
        ensures
            r.loop_.is_none(),
            r.fiber.0 == usize::MAX,
    {
        FullId { loop_: LoopId::none(), fiber: FiberId::none() }
    }
}

/// One step of an operation that may have to wait.
///
/// `Done` carries the operation's result. `Park` asks the caller to suspend
/// (a fiber until it is woken; a plain thread for a moment) and then try
/// again with the value handed back. `Retry` asks the caller to try again at
/// once, with the value handed back: something changed while it looked.
pub enum Step<R, V> {
    Done(R),
    Park(V),
    Retry(V),
}

/// Whether code whose current loop is `current` runs inside a coroutine:
/// true exactly when it runs on some event loop.
pub fn in_coroutine(current: LoopId) -> (r: bool)
    ensures
        r == !current.is_none(),
{
    current.0 != usize::MAX
}

/// Number of threads (event loops) of the runtime instance `instance`, the
/// count it was made with.
///
/// Useful for load balancing: spawning as many coroutines as there are
/// threads to run them.
pub fn thread_num(instance: &dispatch::Mioco) -> (n: usize)
    ensures
        n == instance.loops(),
        n >= 1,
{
    instance.num_threads()
}

/// Calls `num_cpus::get`. Its documentation promises a result of at least 1;
/// beyond that the result depends on the machine, and nothing more is stated.
#[verifier::external_body]
pub(crate) fn available_cpus() -> (n: usize)
    ensures
        n >= 1,
{
    num_cpus::get()
}

} // verus!
