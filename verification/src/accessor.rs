//! The accessor layer: the public entry points that read and write slots
//! through a handle.
//!
//! Every accessor indexes the slot table directly by the handle's integer.
//! None of them checks occupancy: a freed slot can still be read and
//! written, and a freshly reused slot is indistinguishable from the old one.
//! Only the table bounds are demanded, since indexing past the end of the
//! table is a fatal error.

use crate::heap::Heap;
use crate::ptr::SafePtr;
use vstd::prelude::*;

verus! {

/// A shared reference to the slot `r` names, whatever the slot's occupancy
/// state.
pub fn deref<'a, T>(heap: &'a Heap<T>, r: &SafePtr<T>) -> (element: &'a T)
    requires
        heap.wf(),
        r.i < heap.data@.len(),
    ensures
        *element == heap.data@[r.i as int],
{
    &heap.data[r.i]
}

/// An exclusive reference to the slot `r` names, whatever the slot's
/// occupancy state.
pub fn deref_mut<'a, T>(heap: &'a mut Heap<T>, r: &SafePtr<T>) -> (element: &'a mut T)
    requires
        old(heap).wf(),
        r.i < old(heap).data@.len(),
    ensures
        *element == old(heap).data@[r.i as int],
        final(heap).data@ == old(heap).data@.update(r.i as int, *final(element)),
        final(heap).free@ == old(heap).free@,
        final(heap).wf(),
{
    &mut heap.data[r.i]
}

/// Overwrites the slot `r` names with `value`, whatever the slot's
/// occupancy state; the occupancy flags do not change.
pub fn store<T>(heap: &mut Heap<T>, r: SafePtr<T>, value: T)
    requires
        old(heap).wf(),
        r.i < old(heap).data@.len(),
    ensures
        final(heap).wf(),
        final(heap).data@ == old(heap).data@.update(r.i as int, value),
        final(heap).free@ == old(heap).free@,
{
    heap.data[r.i] = value;
}

/// Reads a copy of the slot `r` names, whatever the slot's occupancy state.
pub fn load<T: Copy>(heap: &Heap<T>, r: SafePtr<T>) -> (v: T)
    requires
        heap.wf(),
        r.i < heap.data@.len(),
    ensures
        v == heap.data@[r.i as int],
{
    heap.data[r.i]
}

/// Runs `f` with exclusive access to the slot `r` names and returns what
/// `f` returns.
pub fn with_ref<T, R, F: FnOnce(&mut T) -> R>(heap: &mut Heap<T>, r: &SafePtr<T>, f: F) -> (ret: R)
    requires
        old(heap).wf(),
        r.i < old(heap).data@.len(),
        forall|v: &mut T| *v == old(heap).data@[r.i as int] ==> call_requires(f, (v,)),
    ensures
        final(heap).wf(),
        final(heap).free@ == old(heap).free@,
        exists|v: &mut T|
            (*v == old(heap).data@[r.i as int] && call_ensures(f, (v,), ret) && final(heap).data@
                == old(heap).data@.update(r.i as int, *final(v))),
    {
    let element = &mut heap.data[r.i];
    f(element)
}

/// Law: handles alias. Equal handles of one type name the same slot, so a
/// store of `v` through one copy is observed by a load through the other;
/// handles model shared state, not values.
pub proof fn lemma_handles_alias<T>(s: Seq<T>, h1: SafePtr<T>, h2: SafePtr<T>, v: T)
    requires
        h1 == h2,
        h1.i < s.len(),
    ensures
        s.update(h1.i as int, v)[h2.i as int] == v,
{
}


} // verus!
