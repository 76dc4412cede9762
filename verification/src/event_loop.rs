//! The bookkeeping of one event loop: which fiber slots are live, and what
//! to do with each message and each readiness event.
//!
//! The loop runs on its own thread. Messages arrive on its queue: a request
//! to start a new fiber, or to wake a fiber by id. Readiness events arrive
//! from the poller, tagged with a token: the queue's own token, or the id of
//! the fiber waiting for the I/O. A fiber keeps its slot until it finishes.

use vstd::prelude::*;
use slab::Slab;
use crate::{FiberId, LoopId};
use crate::slab_spec::{slab_capacity, slab_contains, slab_insert, slab_keys, slab_remove, slab_wf, slab_with_capacity};

verus! {

/// The poller token of a loop's message queue.
pub const QUEUE_TOKEN: usize = usize::MAX - 1;

/// How many fibers one loop can hold at once.
pub const FIBER_SLOTS: usize = 1024;

/// A message to an event loop.
#[derive(Clone, Copy, PartialEq, Eq, Structural, Debug)]
pub enum LoopMsg {
    /// Start the fiber that comes with this message.
    Spawn,
    /// Resume this fiber, if it still lives.
    Wake(FiberId),
}

/// What the loop does next.
#[derive(Clone, Copy, PartialEq, Eq, Structural, Debug)]
pub enum LoopAction {
    /// Drain the message queue.
    PollQueue,
    /// Run this fiber until it suspends or finishes.
    Resume(FiberId),
    /// Nothing.
    Ignore,
    /// A new fiber found every slot taken.
    OutOfSlots,
}

/// The state of one event loop.
pub struct Loop {
    id: LoopId,
    fibers: Slab<(), usize>,
}

impl Loop {
    /// This loop's id.
    pub closed spec fn id(&self) -> LoopId {
        self.id
    }

    /// The slots of the live fibers.
    pub closed spec fn live(&self) -> Set<usize> {
        slab_keys(self.fibers)
    }

    /// How many fibers the loop can hold at once.
    pub closed spec fn capacity(&self) -> nat {
        slab_capacity(self.fibers)
    }

    /// The slot table is consistent; every loop keeps it so.
    #[verifier::type_invariant]
    closed spec fn slots_consistent(&self) -> bool {
        slab_wf(self.fibers)
    }

    /// Finitely many fibers live, each in a slot below the capacity.
    pub open spec fn live_within_capacity(&self) -> bool {
        &&& self.live().finite()
        &&& forall|k: usize| #[trigger] self.live().contains(k) ==> k < self.capacity()
    }

    /// A loop with id `id` and no fiber, with room for `FIBER_SLOTS` fibers.
    pub fn new(id: LoopId) -> (l: Loop)
        ensures
            l.live_within_capacity(),
            l.id() == id,
            l.live() == Set::<usize>::empty(),
            l.capacity() == FIBER_SLOTS,
    {
        Loop { id, fibers: slab_with_capacity(FIBER_SLOTS) }
    }

    /// This loop's id.
    pub fn loop_id(&self) -> (r: LoopId)
        ensures
            r == self.id(),
    {
        self.id
    }

    /// Handles one message from the queue.
    ///
    /// `Spawn` gives the new fiber a free slot and resumes it at once, or
    /// reports `OutOfSlots` when none is free. `Wake` resumes the fiber when
    /// it still lives and is ignored otherwise.
    pub fn handle_msg(&mut self, msg: LoopMsg) -> (a: LoopAction)
        ensures
            old(self).live_within_capacity(),
            final(self).live_within_capacity(),
            final(self).id() == old(self).id(),
            final(self).capacity() == old(self).capacity(),
            msg is Spawn ==> (a is OutOfSlots <==> old(self).live().len() == old(self).capacity()),
            match msg {
                LoopMsg::Spawn => match a {
                    LoopAction::Resume(f) => !old(self).live().contains(f.0) && final(self).live()
                        == old(self).live().insert(f.0),
                    LoopAction::OutOfSlots => final(self).live() == old(self).live(),
                    _ => false,
                },
                LoopMsg::Wake(f) => final(self).live() == old(self).live() && a == (
                if old(self).live().contains(f.0) {
                    LoopAction::Resume(f)
                } else {
                    LoopAction::Ignore
                }),
            },
    {
        proof {
            use_type_invariant(&*self);
        }
        match msg {
            LoopMsg::Spawn => match slab_insert(&mut self.fibers) {
                Ok(k) => LoopAction::Resume(FiberId(k)),
                Err(()) => LoopAction::OutOfSlots,
            },
            LoopMsg::Wake(f) => {
                if slab_contains(&self.fibers, f.0) {
                    LoopAction::Resume(f)
                } else {
                    LoopAction::Ignore
                }
            },
        }
    }

    /// Handles one readiness event with token `token`: a readable queue
    /// token drains the queue; the token of a live fiber resumes that fiber;
    /// anything else is ignored.
    pub fn handle_event(&self, token: usize, readable: bool) -> (a: LoopAction)
        ensures
            self.live_within_capacity(),
            a == (if token == QUEUE_TOKEN && readable {
                LoopAction::PollQueue
            } else if self.live().contains(token) {
                LoopAction::Resume(FiberId(token))
            } else {
                LoopAction::Ignore
            }),
    {
        proof {
            use_type_invariant(self);
        }
        if token == QUEUE_TOKEN && readable {
            LoopAction::PollQueue
        } else if slab_contains(&self.fibers, token) {
            LoopAction::Resume(FiberId(token))
        } else {
            LoopAction::Ignore
        }
    }

    /// Records that fiber `fib` has handed control back with `transfer_data`.
    /// A fiber hands back 1 once its function has returned: it has finished
    /// and its slot is freed. Returns whether it finished.
    pub fn fiber_suspended(&mut self, fib: FiberId, transfer_data: usize) -> (finished: bool)
        ensures
            old(self).live_within_capacity(),
            final(self).live_within_capacity(),
            final(self).id() == old(self).id(),
            final(self).capacity() == old(self).capacity(),
            finished == (transfer_data == 1),
            final(self).live() == if finished {
                old(self).live().remove(fib.0)
            } else {
                old(self).live()
            },
    {
        proof {
            use_type_invariant(&*self);
        }
        if transfer_data == 1 {
            slab_remove(&mut self.fibers, fib.0);
            true
        } else {
            false
        }
    }
}

/// A fiber that is spawned and later finishes leaves the loop's live slots as
/// they were.
pub proof fn lemma_spawn_then_finish(live: Set<usize>, k: usize)
    requires
        !live.contains(k),
    ensures
        live.insert(k).remove(k) == live,
{
    assert(live.insert(k).remove(k) =~= live);
}

} // verus!
