//! Up-front allocation of a `Box`: the heap storage is reserved first and the
//! value is written into it later.

use std::mem::MaybeUninit;
use vstd::layout::size_of;
use vstd::prelude::*;

verus! {

/// `Box::write`: stores `value` in the box's storage and hands the box back
/// as one that holds `value`.
#[verifier::external_body]
fn write_boxed<T>(storage: Box<MaybeUninit<T>>, value: T) -> (boxed: Box<T>)
    ensures
        *boxed == value,
{
    Box::write(storage, value)
}

/// Heap storage for one `T` that holds no value yet.
///
/// Dropping the allocation without calling [`BoxAllocation::init`] releases
/// the storage; no destructor of `T` runs, as no `T` was ever written.
pub struct BoxAllocation<T>(
    // `None` for a zero-sized `T`, which needs no storage.
    Option<Box<MaybeUninit<T>>>,
);

impl<T> BoxAllocation<T> {
    /// Whether heap storage was reserved for the value.
    pub closed spec fn holds_storage(self) -> bool {
        self.0 is Some
    }

    /// Storage is held for every type but the zero-sized ones.
    #[verifier::type_invariant]
    pub open spec fn wf(self) -> bool {
        self.holds_storage() <==> size_of::<T>() != 0
    }

    /// Consumes the allocation and writes `value` into it.
    pub fn init(self, value: T) -> (boxed: Box<T>)
        ensures
            *boxed == value,
    {
        match self.0 {
            Some(storage) => write_boxed(storage, value),
            None => Box::new(value),
        }
    }
}

/// Helper trait for a `Box` type that allocates up-front.
pub trait BoxHelper<T> {
    /// Allocates the storage without providing any data.
    fn allocate() -> (allocation: BoxAllocation<T>)
        ensures
            allocation.holds_storage() <==> size_of::<T>() != 0,
    ;
}

impl<T> BoxHelper<T> for Box<T> {
    fn allocate() -> (allocation: BoxAllocation<T>) {
        if std::mem::size_of::<T>() == 0 {
            return BoxAllocation(None);
        }
        BoxAllocation(Some(Box::new_uninit()))
    }
}

} // verus!
