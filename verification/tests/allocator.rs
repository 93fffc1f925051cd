use leak_allocator::deref;
use leak_allocator::deref_mut;
use leak_allocator::load;
use leak_allocator::store;
use leak_allocator::with_ref;
use leak_allocator::Heap;
use leak_allocator::SafePtr;

#[test]
fn null_handle_is_index_zero() {
    let n: SafePtr<i32> = SafePtr::null();
    assert_eq!(n.i, 0);
    let d: SafePtr<i32> = Default::default();
    assert!(d == n);
}

#[test]
fn first_allocation_reserves_null() {
    let mut h: Heap<i32> = Heap::new();
    let p = h.allocate(7);
    assert_eq!(p.i, 1);
    assert!(p != SafePtr::null());
    // the sentinel slot exists and is occupied
    assert_eq!(h.data.len(), 2);
    assert_eq!(h.free[0], false);
}

#[test]
fn allocations_never_return_null_index() {
    let mut h: Heap<u64> = Heap::new();
    let mut handles = Vec::new();
    for k in 0..8u64 {
        handles.push(h.allocate(k));
    }
    h.free(handles[2]);
    h.free(handles[5]);
    for k in 0..4u64 {
        let p = h.allocate(100 + k);
        assert!(p.i != 0);
    }
    let a = h.alloc_array(3);
    assert!(a.i != 0);
}

#[test]
fn freed_slot_is_reused_first_fit() {
    let mut h: Heap<i32> = Heap::new();
    let p1 = h.allocate(1);
    let p2 = h.allocate(2);
    let p3 = h.allocate(3);
    assert_eq!((p1.i, p2.i, p3.i), (1, 2, 3));
    h.free(p2);
    let p4 = h.allocate(4);
    assert_eq!(p4.i, p2.i);
    assert_eq!(load(&h, p4), 4);
    // the neighbours kept their values
    assert_eq!(load(&h, p1), 1);
    assert_eq!(load(&h, p3), 3);
}

#[test]
fn array_allocation_is_contiguous_and_default() {
    let mut h: Heap<i32> = Heap::new();
    let a = h.alloc_array(5);
    assert_eq!(a.i, 1);
    let mut seen = Vec::new();
    for k in 0..5usize {
        let p = a + k;
        assert_eq!(p.i, a.i + k);
        assert!(!seen.contains(&p.i));
        seen.push(p.i);
        assert_eq!(load(&h, p), 0);
        assert_eq!(h.free[p.i], false);
    }
    // the run is freshly occupied: the next single allocation avoids it
    let q = h.allocate(9);
    assert!(!seen.contains(&q.i));
}

#[test]
fn array_reuse_needs_contiguous_run() {
    let mut h: Heap<i32> = Heap::new();
    let p1 = h.allocate(1);
    let p2 = h.allocate(2);
    let p3 = h.allocate(3);
    h.free(p1);
    h.free(p3);
    // two free slots, but no contiguous pair: the table must grow
    let a = h.alloc_array(2);
    assert_eq!(a.i, 4);
    assert_eq!(h.data.len(), 6);
    h.free(p2);
    // now 1..=3 are free and the first pair is reused
    let b = h.alloc_array(2);
    assert_eq!(b.i, 1);
}

#[test]
fn array_of_one_reuses_single_free_slot() {
    let mut h: Heap<u64> = Heap::new();
    let p1 = h.allocate(1);
    let _p2 = h.allocate(2);
    h.free(p1);
    let a = h.alloc_array(1);
    assert_eq!(a.i, p1.i);
    assert_eq!(load(&h, a), 0);
}

#[test]
fn pointer_arithmetic_round_trip() {
    let h: SafePtr<i32> = SafePtr::null() + 5usize;
    assert_eq!(h.i, 5);
    for k in [0usize, 1, 2, 17, 1000] {
        assert!((h + k) - k == h);
        assert_eq!((h + k) - h, k as isize);
    }
    for k in [-3isize, -1, 0, 2, 40] {
        assert!((h + k) - k == h);
        assert_eq!((h + k) - h, k);
    }
    // offsets may leave the allocated range and come back
    let far = h + 1000000usize;
    assert_eq!(far - h, 1000000);
    assert!(far - 1000000usize == h);
}

#[test]
fn pointer_arithmetic_wraps() {
    let h: SafePtr<i32> = SafePtr::null() + 3usize;
    let wrapped = h + usize::MAX;
    assert_eq!(wrapped.i, 2);
    assert!(wrapped - usize::MAX == h);
    let below = h - 5usize;
    assert_eq!(below.i, usize::MAX - 1);
    assert!(below + 5usize == h);
}

#[test]
fn handle_difference_is_signed() {
    let a: SafePtr<i32> = SafePtr::null() + 4usize;
    let b: SafePtr<i32> = SafePtr::null() + 9usize;
    assert_eq!(b - a, 5);
    assert_eq!(a - b, -5);
    assert_eq!(a - a, 0);
}

#[test]
fn copied_handles_alias_one_slot() {
    let mut h: Heap<&'static str> = Heap::new();
    let first = h.allocate("hello");
    let second = first;
    store(&mut h, first, "dont work");
    store(&mut h, second, "works!");
    assert_eq!(load(&h, first), "works!");
    assert_eq!(load(&h, second), "works!");
}

#[test]
fn use_after_free_is_observable() {
    let mut h: Heap<&'static str> = Heap::new();
    let a = h.allocate("no");
    h.free(a);
    // the slot is still addressable and the write lands
    store(&mut h, a, "yes");
    assert_eq!(load(&h, a), "yes");
    // a new allocation reuses the freed slot, so the stale handle now
    // aliases the fresh one
    let b = h.allocate("no");
    assert!(a == b);
    store(&mut h, a, "yes");
    assert_eq!(load(&h, b), "yes");
}

#[test]
fn free_is_idempotent_and_keeps_values() {
    let mut h: Heap<i32> = Heap::new();
    let p = h.allocate(42);
    h.free(p);
    h.free(p);
    assert_eq!(load(&h, p), 42);
    let q = h.allocate(43);
    assert_eq!(q.i, p.i);
}

#[test]
fn free_array_skips_out_of_range_slots() {
    let mut h: Heap<i32> = Heap::new();
    let a = h.alloc_array(3);
    // the span reaches far past the table and must not fail
    h.free_array(a, usize::MAX);
    assert_eq!(h.free[1], true);
    assert_eq!(h.free[2], true);
    assert_eq!(h.free[3], true);
    assert_eq!(h.free[0], false);
    // a fully out-of-range span does nothing
    let far = a + 100usize;
    h.free_array(far, 4);
    let b = h.alloc_array(3);
    assert_eq!(b.i, 1);
}

#[test]
fn deref_reads_and_deref_mut_writes() {
    let mut h: Heap<String> = Heap::new();
    let p = h.allocate(String::from("node"));
    assert_eq!(deref(&h, &p), "node");
    let slot = deref_mut(&mut h, &p);
    slot.push_str("_a");
    assert_eq!(deref(&h, &p), "node_a");
}

#[test]
fn with_ref_gives_exclusive_access() {
    let mut h: Heap<i32> = Heap::new();
    let p = h.allocate(10);
    let previous = with_ref(&mut h, &p, |v: &mut i32| {
        let was = *v;
        *v = 20;
        was
    });
    assert_eq!(previous, 10);
    assert_eq!(load(&h, p), 20);
    // nested access to a table of another type is fine: there is no
    // process-wide lock in this design
    let mut other: Heap<u8> = Heap::new();
    let q = other.allocate(1);
    let sum = with_ref(&mut h, &p, |v: &mut i32| *v + (load(&other, q) as i32));
    assert_eq!(sum, 21);
}

#[test]
fn linked_list_walk_through_handles() {
    #[derive(Clone, Copy, Default)]
    struct Node {
        next: SafePtr<Node>,
        data: i32,
    }

    let mut h: Heap<Node> = Heap::new();
    let c = h.allocate(Node { next: SafePtr::null(), data: 3 });
    let b = h.allocate(Node { next: c, data: 2 });
    let a = h.allocate(Node { next: b, data: 1 });

    let mut seen = Vec::new();
    let mut cur = a;
    while cur != SafePtr::null() {
        let node = load(&h, cur);
        seen.push(node.data);
        cur = node.next;
    }
    assert_eq!(seen, vec![1, 2, 3]);

    // unlink the tail: the walk no longer reaches it
    let mut mid = load(&h, b);
    mid.next = SafePtr::null();
    store(&mut h, b, mid);

    let mut seen2 = Vec::new();
    let mut cur2 = a;
    while cur2 != SafePtr::null() {
        let node = load(&h, cur2);
        seen2.push(node.data);
        cur2 = node.next;
    }
    assert_eq!(seen2, vec![1, 2]);
}
