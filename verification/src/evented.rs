//! Readiness registration for I/O objects driven by fibers.
//!
//! An I/O object is registered with the poller of at most one loop, under
//! the token of the fiber waiting on it and with the readiness that fiber
//! waits for. When a fiber is about to block on it, the registration is
//! brought in line: registered afresh, changed in place, moved from another
//! loop's poller, or kept as it is.

use vstd::prelude::*;
use crate::{in_coroutine, FiberId, FullId, LoopId};

verus! {

/// The readiness a fiber waits for.
#[derive(Clone, Copy, PartialEq, Eq, Structural, Debug, Hash)]
pub enum Interest {
    Readable,
    Writable,
}

/// Where an I/O object is registered: the loop whose poller has it, the
/// fiber it was last blocked on, and the readiness waited for.
#[derive(Clone, Copy, PartialEq, Eq, Structural, Debug)]
pub struct Registration {
    pub loop_: LoopId,
    pub fiber: FiberId,
    pub interest: Interest,
}

/// What to do with the pollers so that an I/O object wakes the right fiber.
#[derive(Clone, Copy, PartialEq, Eq, Structural, Debug)]
pub enum RegAction {
    /// The registration is already right.
    Keep,
    /// Change the registration on `loop_`'s poller to `token` and `interest`.
    Reregister { loop_: LoopId, token: usize, interest: Interest },
    /// Take the object off `from`'s poller and register it on `to`'s.
    Move { from: LoopId, to: LoopId, token: usize, interest: Interest },
    /// Register the object on `loop_`'s poller.
    Register { loop_: LoopId, token: usize, interest: Interest },
}

/// The action that brings the registration `reg` in line for fiber `cur`
/// waiting for `interest`.
///
/// Within the same loop the registration is changed unless it already names
/// this fiber and readiness; it keeps the token it was registered with, that
/// of the fiber it was registered for. From another loop it is moved, under
/// the token of `cur`. Unregistered, it is registered under that token.
pub open spec fn registration_action(reg: Option<Registration>, cur: FullId, interest: Interest) -> RegAction {
    match reg {
        Some(r) => if cur.loop_ == r.loop_ {
            if cur.fiber == r.fiber && interest == r.interest {
                RegAction::Keep
            } else {
                RegAction::Reregister { loop_: cur.loop_, token: r.fiber.0, interest }
            }
        } else {
            RegAction::Move { from: r.loop_, to: cur.loop_, token: cur.fiber.0, interest }
        },
        None => RegAction::Register { loop_: cur.loop_, token: cur.fiber.0, interest },
    }
}

/// What to do after an I/O call on a fiber-driven object.
#[derive(Clone, Copy, PartialEq, Eq, Structural, Debug)]
pub enum IoStep {
    /// Hand the call's result to the caller.
    Return,
    /// Apply the action, suspend the fiber until the object is ready, then
    /// repeat the call.
    Block(RegAction),
}

/// An I/O object usable from fibers: a call that would block suspends the
/// calling fiber until the object is ready instead of blocking the thread.
pub struct AsyncIO<T> {
    io: T,
    registered_on: Option<Registration>,
}

impl<T> AsyncIO<T> {
    /// Where the object is registered; `None` before its first wait.
    pub closed spec fn registered_on(&self) -> Option<Registration> {
        self.registered_on
    }

    /// The wrapped object.
    pub closed spec fn inner(&self) -> T {
        self.io
    }

    /// Wraps `t`, registered nowhere yet.
    pub fn new(t: T) -> (r: AsyncIO<T>)
        ensures
            r.registered_on() is None,
            r.inner() == t,
    {
        AsyncIO { io: t, registered_on: None }
    }

    /// The wrapped object.
    pub fn io(&self) -> (r: &T)
        ensures
            *r == self.inner(),
    {
        &self.io
    }

    /// Gives mutable access to the wrapped object; the registration stays.
    pub fn io_mut(&mut self) -> (r: &mut T)
        ensures
            *r == old(self).inner(),
            final(self).inner() == *final(r),
            final(self).registered_on() == old(self).registered_on(),
    {
        &mut self.io
    }

    /// Arranges for fiber `cur` to be woken when the object becomes ready
    /// for `interest`: returns the poller action to take (see
    /// `registration_action`) and records the new registration.
    pub fn notify_on(&mut self, cur: FullId, interest: Interest) -> (a: RegAction)
        ensures
            a == registration_action(old(self).registered_on(), cur, interest),
            final(self).registered_on() == Some(
                Registration { loop_: cur.loop_, fiber: cur.fiber, interest },
            ),
            final(self).inner() == old(self).inner(),
    {
        let action = match self.registered_on {
            Some(r) => {
                if cur.loop_ == r.loop_ {
                    if cur.fiber == r.fiber && interest == r.interest {
                        RegAction::Keep
                    } else {
                        RegAction::Reregister { loop_: cur.loop_, token: r.fiber.0, interest }
                    }
                } else {
                    RegAction::Move { from: r.loop_, to: cur.loop_, token: cur.fiber.0, interest }
                }
            },
            None => RegAction::Register { loop_: cur.loop_, token: cur.fiber.0, interest },
        };
        self.registered_on = Some(Registration { loop_: cur.loop_, fiber: cur.fiber, interest });
        action
    }

    /// After a read, write or flush by `cur` whose result would block
    /// (`would_block`) or not: outside a coroutine, or when it did not
    /// block, the result goes to the caller; otherwise the fiber waits for
    /// `interest` (readable for reads, writable for writes and flushes).
    pub fn after_io(&mut self, cur: FullId, would_block: bool, interest: Interest) -> (s: IoStep)
        ensures
            !in_coroutine_spec(cur) || !would_block ==> s == IoStep::Return && *final(self)
                == *old(self),
            in_coroutine_spec(cur) && would_block ==> s == IoStep::Block(
                registration_action(old(self).registered_on(), cur, interest),
            ) && final(self).registered_on() == Some(
                Registration { loop_: cur.loop_, fiber: cur.fiber, interest },
            ),
            final(self).inner() == old(self).inner(),
    {
        if !in_coroutine(cur.loop_) || !would_block {
            IoStep::Return
        } else {
            IoStep::Block(self.notify_on(cur, interest))
        }
    }

    /// After an accept by `cur`: when it would block, the fiber waits until
    /// the listener is readable; otherwise the result goes to the caller.
    pub fn after_accept(&mut self, cur: FullId, would_block: bool) -> (s: IoStep)
        ensures
            !would_block ==> s == IoStep::Return && *final(self) == *old(self),
            would_block ==> s == IoStep::Block(
                registration_action(old(self).registered_on(), cur, Interest::Readable),
            ) && final(self).registered_on() == Some(
                Registration { loop_: cur.loop_, fiber: cur.fiber, interest: Interest::Readable },
            ),
            final(self).inner() == old(self).inner(),
    {
        if would_block {
            IoStep::Block(self.notify_on(cur, Interest::Readable))
        } else {
            IoStep::Return
        }
    }
}

/// Whether the code with id `cur` runs inside a coroutine.
pub open spec fn in_coroutine_spec(cur: FullId) -> bool {
    !cur.loop_.is_none()
}

/// A wait leaves the object registered for exactly the waiting fiber, and a
/// second wait by the same fiber for the same readiness needs no poller call.
pub proof fn lemma_second_wait_keeps(reg: Option<Registration>, cur: FullId, interest: Interest)
    ensures
        registration_action(
            Some(Registration { loop_: cur.loop_, fiber: cur.fiber, interest }),
            cur,
            interest,
        ) == RegAction::Keep,
        registration_action(reg, cur, interest) == RegAction::Keep ==> reg == Some(
            Registration { loop_: cur.loop_, fiber: cur.fiber, interest },
        ),
{
}

} // verus!
