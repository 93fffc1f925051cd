//! A type-indexed slab allocator working over integer handles.
//!
//! Each value type gets a growable slot table (`Heap<T>`); allocations hand
//! out lightweight handles (`SafePtr<T>`) that behave like pointers: they can
//! be copied freely, offset with `+` and `-`, and dereferenced through the
//! accessor functions. Handles carry no validity information beyond the
//! index itself, so stale handles still reach whatever currently sits in
//! their slot; that behaviour is deliberate and is spelled out in the
//! contracts.

pub mod accessor;
pub mod heap;
pub mod ptr;

pub use accessor::deref;
pub use accessor::deref_mut;
pub use accessor::load;
pub use accessor::store;
pub use accessor::with_ref;
pub use heap::Heap;
pub use ptr::SafePtr;
