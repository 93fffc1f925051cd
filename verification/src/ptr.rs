//! Handles: index-based stand-ins for pointers.
//!
//! A `SafePtr<T>` is a bare coordinate into the slot table for `T`. It owns
//! nothing, checks nothing, and may be copied without restriction; several
//! handles may name the same slot at once. Arithmetic on handles wraps
//! around the `usize` range, exactly like unchecked pointer arithmetic over
//! a dense array of slots.

use vstd::prelude::*;
use vstd::std_specs::ops::AddSpec;
use vstd::std_specs::ops::SubSpec;

verus! {

/// An index into the slot table for `T`. Index `0` is the null handle by
/// convention; the table keeps slot `0` permanently occupied so that no
/// allocation ever returns it.
pub struct SafePtr<T> {
    pub i: usize,
    pub _phantom: core::marker::PhantomData<T>,
}

impl<T> SafePtr<T> {
    /// The null handle: index `0`, by convention never a live allocation.
    pub fn null() -> (r: Self)
        ensures
            r.i == 0,
    {
        SafePtr { i: 0, _phantom: core::marker::PhantomData }
    }
}

impl<T> Clone for SafePtr<T> {
    fn clone(&self) -> (r: Self)
        ensures
            r == *self,
    {
        SafePtr { i: self.i, _phantom: core::marker::PhantomData }
    }
}

impl<T> Copy for SafePtr<T> {

}

impl<T> PartialEq for SafePtr<T> {
    /// Two handles of the same type are equal iff their indices are equal.
    fn eq(&self, other: &Self) -> (r: bool)
    {
        self.i == other.i
    }
}

impl<T> vstd::std_specs::cmp::PartialEqSpecImpl for SafePtr<T> {
    open spec fn obeys_eq_spec() -> bool {
        true
    }

    open spec fn eq_spec(&self, other: &Self) -> bool {
        self.i == other.i
    }
}

/// The index that offsetting a handle at index `a` by `+k` slots produces:
/// plain addition, wrapping around the `usize` range.
pub open spec fn offset_add(a: usize, k: usize) -> usize {
    vstd::wrapping::usize_specs::wrapping_add(a, k)
}

/// The index that offsetting a handle at index `a` by `-k` slots produces:
/// plain subtraction, wrapping around the `usize` range.
pub open spec fn offset_sub(a: usize, k: usize) -> usize {
    vstd::wrapping::usize_specs::wrapping_sub(a, k)
}

/// The index that offsetting a handle at index `a` by a signed `k` slots
/// produces, wrapping around the `usize` range.
pub open spec fn offset_add_signed(a: usize, k: isize) -> usize {
    vstd::wrapping::usize_specs::wrapping_add_signed(a, k)
}

/// The index that offsetting a handle at index `a` by a signed `-k` slots
/// produces, wrapping around the `usize` range.
pub open spec fn offset_sub_signed(a: usize, k: isize) -> usize {
    if a - k > usize::MAX {
        (a - k - (usize::MAX + 1)) as usize
    } else if a - k < 0 {
        (a - k + (usize::MAX + 1)) as usize
    } else {
        (a - k) as usize
    }
}

/// The signed slot distance from index `b` to index `a`, wrapped into the
/// `isize` range the way a two's-complement difference is.
pub open spec fn slot_distance(a: usize, b: usize) -> isize {
    if a - b > isize::MAX {
        (a - b - (usize::MAX + 1)) as isize
    } else if a - b < isize::MIN {
        (a - b + (usize::MAX + 1)) as isize
    } else {
        (a - b) as isize
    }
}

impl<T> core::ops::Add<usize> for SafePtr<T> {
    type Output = SafePtr<T>;

    /// `h + k`: a handle `k` slots further along, with no bounds check; the
    /// result may lie inside, before, or after any allocated run.
    fn add(self, offset: usize) -> (r: SafePtr<T>)
    {
        SafePtr { i: self.i.wrapping_add(offset), _phantom: core::marker::PhantomData }
    }
}

impl<T> vstd::std_specs::ops::AddSpecImpl<usize> for SafePtr<T> {
    open spec fn obeys_add_spec() -> bool {
        true
    }

    open spec fn add_req(self, offset: usize) -> bool {
        true
    }

    open spec fn add_spec(self, offset: usize) -> SafePtr<T> {
        SafePtr { i: offset_add(self.i, offset), _phantom: self._phantom }
    }
}

impl<T> core::ops::Sub<usize> for SafePtr<T> {
    type Output = SafePtr<T>;

    /// `h - k`: a handle `k` slots back, with no bounds check.
    fn sub(self, offset: usize) -> (r: SafePtr<T>)
    {
        SafePtr { i: self.i.wrapping_sub(offset), _phantom: core::marker::PhantomData }
    }
}

impl<T> vstd::std_specs::ops::SubSpecImpl<usize> for SafePtr<T> {
    open spec fn obeys_sub_spec() -> bool {
        true
    }

    open spec fn sub_req(self, offset: usize) -> bool {
        true
    }

    open spec fn sub_spec(self, offset: usize) -> SafePtr<T> {
        SafePtr { i: offset_sub(self.i, offset), _phantom: self._phantom }
    }
}

impl<T> core::ops::Add<isize> for SafePtr<T> {
    type Output = SafePtr<T>;

    /// `h + k` for a signed offset.
    fn add(self, offset: isize) -> (r: SafePtr<T>)
    {
        SafePtr { i: self.i.wrapping_add_signed(offset), _phantom: core::marker::PhantomData }
    }
}

impl<T> vstd::std_specs::ops::AddSpecImpl<isize> for SafePtr<T> {
    open spec fn obeys_add_spec() -> bool {
        true
    }

    open spec fn add_req(self, offset: isize) -> bool {
        true
    }

    open spec fn add_spec(self, offset: isize) -> SafePtr<T> {
        SafePtr { i: offset_add_signed(self.i, offset), _phantom: self._phantom }
    }
}

impl<T> core::ops::Sub<isize> for SafePtr<T> {
    type Output = SafePtr<T>;

    /// `h - k` for a signed offset.
    fn sub(self, offset: isize) -> (r: SafePtr<T>)
    {
        let neg: isize = if offset == isize::MIN {
            isize::MIN
        } else {
            -offset
        };
        SafePtr { i: self.i.wrapping_add_signed(neg), _phantom: core::marker::PhantomData }
    }
}

impl<T> vstd::std_specs::ops::SubSpecImpl<isize> for SafePtr<T> {
    open spec fn obeys_sub_spec() -> bool {
        true
    }

    open spec fn sub_req(self, offset: isize) -> bool {
        true
    }

    open spec fn sub_spec(self, offset: isize) -> SafePtr<T> {
        SafePtr { i: offset_sub_signed(self.i, offset), _phantom: self._phantom }
    }
}

impl<T> core::ops::Sub<SafePtr<T>> for SafePtr<T> {
    type Output = isize;

    /// `h1 - h2`: the signed slot distance between two handles of the same
    /// type, in slot units.
    fn sub(self, other: SafePtr<T>) -> (r: isize)
    {
        let d: usize = self.i.wrapping_sub(other.i);
        let half: usize = isize::MAX as usize;
        if d <= half {
            d as isize
        } else {
            isize::MIN + ((d - half - 1) as isize)
        }
    }
}

impl<T> vstd::std_specs::ops::SubSpecImpl<SafePtr<T>> for SafePtr<T> {
    open spec fn obeys_sub_spec() -> bool {
        true
    }

    open spec fn sub_req(self, other: SafePtr<T>) -> bool {
        true
    }

    open spec fn sub_spec(self, other: SafePtr<T>) -> isize {
        slot_distance(self.i, other.i)
    }
}

impl<T> Default for SafePtr<T> {
    /// The default handle is the null handle.
    fn default() -> (r: Self)
        ensures
            r.i == 0,
    {
        SafePtr { i: 0, _phantom: core::marker::PhantomData }
    }
}

/// Law: offsetting a handle by `k` slots and back is the identity,
/// `(h + k) - k == h`, for every unsigned offset `k`.
pub proof fn lemma_add_sub_roundtrip<T>(h: SafePtr<T>, k: usize)
    ensures
        h.add_spec(k).sub_spec(k) == h,
{
}

/// Law: offsetting a handle by `k` slots and back is the identity,
/// `(h + k) - k == h`, for every signed offset `k`.
pub proof fn lemma_add_sub_roundtrip_signed<T>(h: SafePtr<T>, k: isize)
    ensures
        h.add_spec(k).sub_spec(k) == h,
{
}

/// Law: the distance from a handle to its offset copy is the offset,
/// `(h + k) - h == k`, for every signed offset `k`.
pub proof fn lemma_add_diff_signed<T>(h: SafePtr<T>, k: isize)
    ensures
        h.add_spec(k).sub_spec(h) == k,
{
}

/// Law: the distance from a handle to its offset copy is the offset,
/// `(h + k) - h == k`, for every unsigned offset `k` that a signed slot
/// distance can express.
pub proof fn lemma_add_diff<T>(h: SafePtr<T>, k: usize)
    requires
        k <= isize::MAX as usize,
    ensures
        h.add_spec(k).sub_spec(h) == k as isize,
{
}

} // verus!
