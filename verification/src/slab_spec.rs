//! The `slab` crate's slot table, as the event loop uses it: a fixed number
//! of slots, each free or filled, filled slots found again by their key.

use vstd::prelude::*;
use slab::Slab;

verus! {

#[verifier::external_type_specification]
#[verifier::external_body]
#[verifier::reject_recursive_types(T)]
#[verifier::reject_recursive_types(I)]
pub struct ExSlab<T, I>(Slab<T, I>);

/// The keys of the filled slots of a slot table.
pub uninterp spec fn slab_keys(s: Slab<(), usize>) -> Set<usize>;

/// The number of slots a slot table was made with.
pub uninterp spec fn slab_capacity(s: Slab<(), usize>) -> nat;

/// What holds of every slot table: finitely many filled slots, each key
/// below the capacity.
pub open spec fn slab_wf(s: Slab<(), usize>) -> bool {
    &&& slab_keys(s).finite()
    &&& forall|k: usize| #[trigger] slab_keys(s).contains(k) ==> k < slab_capacity(s)
}

/// Calls `Slab::with_capacity`: a table of `capacity` slots, all free. The
/// call builds the range `1..capacity + 1`, so `capacity` stays below
/// `usize::MAX`.
#[verifier::external_body]
pub(crate) fn slab_with_capacity(capacity: usize) -> (s: Slab<(), usize>)
    requires
        capacity < usize::MAX,
    ensures
        slab_wf(s),
        slab_keys(s) == Set::<usize>::empty(),
        slab_capacity(s) == capacity,
{
    Slab::with_capacity(capacity)
}

/// Calls `Slab::insert`: fills a free slot and returns its key, or fails,
/// changing nothing, when every slot is filled. It does not unwind: it
/// allocates nothing, and its panics are for a corrupt free list only.
#[verifier::external_body]
pub(crate) fn slab_insert(s: &mut Slab<(), usize>) -> (r: Result<usize, ()>)
    requires
        slab_wf(*old(s)),
    ensures
        slab_wf(*final(s)),
        slab_capacity(*final(s)) == slab_capacity(*old(s)),
        r is Err <==> slab_keys(*old(s)).len() == slab_capacity(*old(s)),
        r matches Ok(k) ==> !slab_keys(*old(s)).contains(k) && slab_keys(*final(s))
            == slab_keys(*old(s)).insert(k),
        r is Err ==> slab_keys(*final(s)) == slab_keys(*old(s)),
    no_unwind
{
    s.insert(())
}

/// Calls `Slab::contains`: whether slot `k` is filled.
#[verifier::external_body]
pub(crate) fn slab_contains(s: &Slab<(), usize>, k: usize) -> (r: bool)
    ensures
        r == slab_keys(*s).contains(k),
{
    s.contains(k)
}

/// Calls `Slab::remove`: frees slot `k` if it is filled, reporting whether
/// it was. It does not unwind: it allocates nothing, and its panic is for a
/// corrupt slot only.
#[verifier::external_body]
pub(crate) fn slab_remove(s: &mut Slab<(), usize>, k: usize) -> (r: Option<()>)
    requires
        slab_wf(*old(s)),
    ensures
        slab_wf(*final(s)),
        slab_capacity(*final(s)) == slab_capacity(*old(s)),
        r is Some <==> slab_keys(*old(s)).contains(k),
        slab_keys(*final(s)) == slab_keys(*old(s)).remove(k),
    no_unwind
{
    s.remove(k)
}

} // verus!
