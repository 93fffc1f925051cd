//! Slot tables: one growable array of slots per value type.

use crate::ptr::SafePtr;
use vstd::prelude::*;

verus! {

/// `i` is the first free slot of `f`: it is free, and every slot before it
/// is occupied.
pub open spec fn is_first_free(f: Seq<bool>, i: int) -> bool {
    &&& 0 <= i < f.len()
    &&& f[i]
    &&& forall|j: int| 0 <= j < i ==> !f[j]
}

/// Some slot of `f` is free.
pub open spec fn has_free(f: Seq<bool>) -> bool {
    exists|i: int| 0 <= i < f.len() && f[i]
}

/// The `n` slots starting at `start` all lie in the table and are all free.
pub open spec fn run_free(f: Seq<bool>, start: int, n: int) -> bool {
    &&& 0 <= start
    &&& start + n <= f.len()
    &&& forall|j: int| start <= j < start + n ==> f[j]
}

/// `start` begins the first run of `n` free slots: the run is free, and no
/// run of `n` free slots starts earlier.
pub open spec fn is_first_fit_run(f: Seq<bool>, start: int, n: int) -> bool {
    &&& run_free(f, start, n)
    &&& forall|s: int| 0 <= s < start ==> !run_free(f, s, n)
}

/// Some run of `n` free slots exists in `f`.
pub open spec fn has_run(f: Seq<bool>, n: int) -> bool {
    exists|s: int| run_free(f, s, n)
}

/// The slot table for one value type: a dense array of slots and a parallel
/// vector of flags, `true` meaning the slot is free. The table only ever
/// grows; freed slots are reused in place by later allocations.
pub struct Heap<T> {
    pub data: Vec<T>,
    pub free: Vec<bool>,
}

impl<T> Heap<T> {
    /// The two vectors always run in parallel.
    pub open spec fn wf(self) -> bool {
        self.data@.len() == self.free@.len()
    }

    /// Once the table is non-empty, slot `0` is the permanently occupied
    /// null sentinel.
    pub open spec fn null_reserved(self) -> bool {
        self.data@.len() > 0 ==> !self.free@[0]
    }

    /// Unconditionally marks the slot at `r`'s index as free, whatever its
    /// current state; the stored value is left in place. The index must lie
    /// inside the table.
    pub fn free(&mut self, r: SafePtr<T>)
        requires
            old(self).wf(),
            r.i < old(self).free@.len(),
        ensures
            final(self).wf(),
            final(self).free@ == old(self).free@.update(r.i as int, true),
            final(self).data@ == old(self).data@,
            old(self).null_reserved() && r.i != 0 ==> final(self).null_reserved(),
    {
        self.free[r.i] = true;
    }

    /// Marks the `n` consecutive slots starting at `r`'s index as free;
    /// any part of that span beyond the end of the table is silently
    /// skipped. Stored values are left in place.
    pub fn free_array(&mut self, r: SafePtr<T>, n: usize)
        requires
            old(self).wf(),
        ensures
            final(self).wf(),
            final(self).data@ == old(self).data@,
            final(self).free@.len() == old(self).free@.len(),
            forall|k: int|
                0 <= k < old(self).free@.len() ==> final(self).free@[k] == (if r.i <= k < r.i
                    + n {
                    true
                } else {
                    old(self).free@[k]
                }),
            old(self).null_reserved() && r.i != 0 ==> final(self).null_reserved(),
    {
        let len = self.free.len();
        let m: usize = if r.i >= len {
            0
        } else if n > len - r.i {
            len - r.i
        } else {
            n
        };
        let mut j: usize = 0;
        while j < m
            invariant
                j <= m,
                self.free@.len() <= usize::MAX,
                m > 0 ==> r.i + m <= self.free@.len(),
                self.free@.len() == old(self).free@.len(),
                self.data@ == old(self).data@,
                forall|k: int| r.i <= k < r.i + j ==> self.free@[k],
                forall|k: int|
                    0 <= k < self.free@.len() && !(r.i <= k < r.i + j)
                        ==> self.free@[k] == old(self).free@[k],
            decreases m - j,
        {
            self.free[r.i + j] = true;
            j += 1;
        }
    }
}

impl<T: Default> Heap<T> {
    /// A fresh, empty slot table. The null sentinel at index `0` appears on
    /// the first allocation, not here.
    pub fn new() -> (r: Self)
        ensures
            r.wf(),
            r.data@.len() == 0,
    {
        Heap { data: Vec::new(), free: Vec::new() }
    }

    /// Allocates one slot for `value` and returns its handle.
    ///
    /// On a fresh table a default-valued sentinel is first pushed at index
    /// `0` and permanently marked occupied, so that index `0` can serve as
    /// the null handle. The first free slot in ascending index order is then
    /// reused in place; when none is free, `value` is appended at the end.
    pub fn allocate(&mut self, value: T) -> (r: SafePtr<T>)
        requires
            old(self).wf(),
        ensures
            final(self).wf(),
            final(self).null_reserved(),
            final(self).data@.len() >= old(self).data@.len(),
            r.i < final(self).data@.len(),
            final(self).data@[r.i as int] == value,
            !final(self).free@[r.i as int],
            old(self).null_reserved() ==> r.i != 0,
            old(self).data@.len() == 0 ==> (r.i == 1 && final(self).data@.len() == 2
                && !final(self).free@[0] && !final(self).free@[1]),
            old(self).data@.len() > 0 && has_free(old(self).free@)
                ==> (is_first_free(old(self).free@, r.i as int)
                && final(self).data@ == old(self).data@.update(r.i as int, value)
                && final(self).free@ == old(self).free@.update(r.i as int, false)),
            old(self).data@.len() > 0 && !has_free(old(self).free@)
                ==> (r.i == old(self).data@.len()
                && final(self).data@ == old(self).data@.push(value)
                && final(self).free@ == old(self).free@.push(false)),
    {
        if self.data.len() == 0 {
            // reserve index 0 so that it can stand for the null handle
            self.data.push(T::default());
            self.free.push(false);
        }
        match first_free_slot(&self.free) {
            Some(i) => {
                self.free[i] = false;
                self.data[i] = value;
                SafePtr { i, _phantom: core::marker::PhantomData }
            },
            None => {
                self.data.push(value);
                self.free.push(false);
                SafePtr { i: self.data.len() - 1, _phantom: core::marker::PhantomData }
            },
        }
    }

    /// Allocates `count` contiguous slots, reset to the type's default
    /// value, and returns the handle of the first one.
    ///
    /// On a fresh table the null sentinel is first pushed as in `allocate`.
    /// The occupancy flags are then scanned left to right for the first run
    /// of `count` free slots; when one exists it is reused in place, and
    /// otherwise the table grows by exactly `count` slots at the end.
    #[verifier::rlimit(50)]
    pub fn alloc_array(&mut self, count: usize) -> (r: SafePtr<T>)
        requires
            old(self).wf(),
            count >= 1,
        ensures
            final(self).wf(),
            old(self).null_reserved() ==> r.i != 0 && final(self).null_reserved(),
            final(self).data@.len() >= old(self).data@.len(),
            r.i + count <= final(self).data@.len(),
            forall|j: int| r.i <= j < r.i + count ==> !final(self).free@[j],
            old(self).data@.len() == 0 ==> (r.i == 1 && final(self).data@.len() == 1 + count
                && final(self).null_reserved() && (forall|j: int|
                0 <= j < final(self).free@.len() ==> !final(self).free@[j])),
            old(self).data@.len() > 0 && has_run(old(self).free@, count as int)
                ==> is_first_fit_run(old(self).free@, r.i as int, count as int),
            old(self).data@.len() > 0 && has_run(old(self).free@, count as int)
                ==> final(self).data@.len() == old(self).data@.len(),
            old(self).data@.len() > 0 && has_run(old(self).free@, count as int) ==> (forall|j: int|
                0 <= j < old(self).free@.len() && !(r.i <= j < r.i + count)
                    ==> final(self).free@[j] == old(self).free@[j]
                    && final(self).data@[j] == old(self).data@[j]),
            old(self).data@.len() > 0 && !has_run(old(self).free@, count as int) ==> r.i == old(self).data@.len(),
            old(self).data@.len() > 0 && !has_run(old(self).free@, count as int) 
                ==> final(self).data@.len() == old(self).data@.len() + count,
            old(self).data@.len() > 0 && !has_run(old(self).free@, count as int) ==> (forall|j: int|
                0 <= j < old(self).free@.len() ==> final(self).free@[j] == old(self).free@[j]
                    && final(self).data@[j] == old(self).data@[j]),
    {
        if self.data.len() == 0 {
            // reserve index 0 so that it can stand for the null handle
            self.data.push(T::default());
            self.free.push(false);
        }
        let ghost g_data = self.data@;
        let ghost g_free = self.free@;
        proof {
            if old(self).data@.len() == 0 {
                assert(g_free == old(self).free@.push(false));
                assert(g_free.len() == 1 && g_free[0] == false);
            } else {
                assert(g_free == old(self).free@);
                assert(g_data == old(self).data@);
            }
        }
        match first_fit_run(&self.free, count) {
            Some(s) => {
                let mut j: usize = 0;
                while j < count
                    invariant
                        j <= count,
                        self.free@.len() <= usize::MAX,
                        s + count <= self.free@.len(),
                        self.data@.len() == self.free@.len(),
                        self.free@.len() == g_free.len(),
                        g_data.len() == g_free.len(),
                        forall|k: int| s <= k < s + j ==> !self.free@[k],
                        forall|k: int|
                            0 <= k < self.free@.len() && !(s <= k < s + j) ==> self.free@[k]
                                == g_free[k],
                        forall|k: int|
                            0 <= k < self.data@.len() && !(s <= k < s + j) ==> self.data@[k]
                                == g_data[k],
                    decreases count - j,
                {
                    self.data[s + j] = T::default();
                    self.free[s + j] = false;
                    j += 1;
                }
                proof {
                    // the run starts on a free slot, and the sentinel at 0
                    // is occupied, so a reused run never starts at 0; on a
                    // freshly seeded table no slot is free at all
                    assert(run_free(g_free, s as int, count as int));
                    assert(g_free[s as int]);
                    assert(old(self).data@.len() > 0);
                    assert(has_run(old(self).free@, count as int));
                }
                SafePtr { i: s, _phantom: core::marker::PhantomData }
            },
            None => {
                let start = self.data.len();
                let mut j: usize = 0;
                while j < count
                    invariant
                        j <= count,
                        start == g_data.len(),
                        g_data.len() == g_free.len(),
                        start + j == self.data@.len(),
                        self.data@.len() == self.free@.len(),
                        forall|k: int| start <= k < start + j ==> !self.free@[k],
                        forall|k: int|
                            0 <= k < start ==> self.free@[k] == g_free[k] && self.data@[k]
                                == g_data[k],
                    decreases count - j,
                {
                    self.data.push(T::default());
                    self.free.push(false);
                    j += 1;
                }
                SafePtr { i: start, _phantom: core::marker::PhantomData }
            },
        }
    }
}

/// Law: while the null sentinel at index `0` is occupied, the first free
/// slot is never index `0`, so single-slot allocation never hands the null
/// handle out again.
pub proof fn lemma_null_never_allocated(f: Seq<bool>, i: int)
    requires
        f.len() > 0,
        !f[0],
        is_first_free(f, i),
    ensures
        i != 0,
{
}

/// Law: while the null sentinel at index `0` is occupied, no run of free
/// slots starts at index `0`, so array allocation never hands the null
/// handle out either.
pub proof fn lemma_null_never_in_run(f: Seq<bool>, s: int, n: int)
    requires
        f.len() > 0,
        !f[0],
        n >= 1,
        run_free(f, s, n),
    ensures
        s != 0,
{
}

/// Law: when exactly one slot of the table is free, first-fit reuse picks
/// exactly that slot; freeing a handle and allocating again therefore
/// returns the freed index.
pub proof fn lemma_freed_slot_reused(f: Seq<bool>, j: int)
    requires
        0 <= j < f.len(),
        f[j],
        forall|k: int| 0 <= k < f.len() && k != j ==> !f[k],
    ensures
        has_free(f),
        is_first_free(f, j),
{
}

/// Law: use-after-free is observable. Freeing a handle changes no stored
/// value and no table length, so a later `store` and `load` through the
/// same handle still meet their preconditions, and the load returns exactly
/// what the store wrote.
pub proof fn lemma_use_after_free<T>(heap: Heap<T>, freed: Heap<T>, h: SafePtr<T>, v: T)
    requires
        heap.wf(),
        h.i < heap.data@.len(),
        freed.data@ == heap.data@,
        freed.free@ == heap.free@.update(h.i as int, true),
    ensures
        freed.wf(),
        h.i < freed.data@.len(),
        freed.data@.update(h.i as int, v)[h.i as int] == v,
{
}

/// The first free slot of `f` in ascending index order, when any is free.
fn first_free_slot(f: &Vec<bool>) -> (r: Option<usize>)
    ensures
        match r {
            Some(i) => is_first_free(f@, i as int),
            None => !has_free(f@),
        },
{
    let n = f.len();
    let mut idx: usize = 0;
    while idx < n
        invariant
            idx <= n,
            n == f@.len(),
            forall|j: int| 0 <= j < idx ==> !f@[j],
        decreases n - idx,
    {
        if f[idx] {
            return Some(idx);
        }
        idx += 1;
    }
    None
}

/// The start of the first run of `count` free slots of `f` in ascending
/// index order, when such a run exists.
fn first_fit_run(f: &Vec<bool>, count: usize) -> (r: Option<usize>)
    requires
        count >= 1,
    ensures
        match r {
            Some(s) => is_first_fit_run(f@, s as int, count as int),
            None => !has_run(f@, count as int),
        },
{
    let n = f.len();
    let mut s: usize = 0;
    let mut j: usize = 0;
    while j < n
        invariant
            count >= 1,
            s <= j <= n,
            n == f@.len(),
            j - s < count,
            forall|k: int| s <= k < j ==> f@[k],
            forall|s2: int| 0 <= s2 < s ==> !run_free(f@, s2, count as int),
        decreases n - j,
    {
        if f[j] {
            if j - s + 1 == count {
                return Some(s);
            }
            j += 1;
        } else {
            j += 1;
            s = j;
        }
    }
    None
}

} // verus!
