//! Up-front allocation in a `Vec`: a slot is reserved first and the value is
//! written into it later, through a token that keeps the vector borrowed.

use vstd::pervasive::runtime_assert;
use vstd::prelude::*;

verus! {

/// `Vec::capacity`. The number it returns depends on what the allocator handed
/// out, so nothing is claimed of it.
#[verifier::external_body]
fn capacity<T>(vec: &Vec<T>) -> usize {
    vec.capacity()
}

/// `Extend::extend` of `Vec<T>`, called with an array: the array's elements are
/// appended to the vector in the array's order.
#[verifier::external_body]
fn extend_from_array<T, const N: usize>(vec: &mut Vec<T>, values: [T; N])
    ensures
        final(vec)@ == old(vec)@ + values@,
{
    vec.extend(values);
}

/// A reserved, not yet written slot at the end of a vector.
///
/// The allocation keeps the vector mutably borrowed, so nothing else can touch
/// the vector while the slot is pending. Dropping the allocation without
/// calling [`VecAllocation::init`] leaves the vector as it was.
pub struct VecAllocation<'a, T: 'a> {
    vec: &'a mut Vec<T>,
    index: usize,
}

impl<'a, T> VecAllocation<'a, T> {
    /// The borrowed vector: `self.vec()@` is what it holds while the slot is
    /// pending, `final(self.vec())@` what it holds when the borrow ends.
    pub closed spec fn vec(self) -> &'a mut Vec<T> {
        self.vec
    }

    /// The position of the reserved slot.
    pub closed spec fn index(self) -> usize {
        self.index
    }

    /// The reserved slot is the first one past the vector's elements.
    #[verifier::type_invariant]
    pub open spec fn wf(self) -> bool {
        self.index() == self.vec()@.len()
    }

    /// Consumes the allocation and writes `value` into the reserved slot,
    /// returning the slot's position.
    pub fn init(self, value: T) -> (index: usize)
        ensures
            index == self.index(),
            index == self.vec()@.len(),
            final(self.vec())@ == self.vec()@.push(value),
    {
        proof {
            use_type_invariant(&self);
        }
        let VecAllocation { vec, index } = self;
        vec.push(value);
        index
    }

    /// An allocation that is dropped unused hands the vector back unchanged.
    pub broadcast proof fn lemma_abandoned(self)
        requires
            #[trigger] has_resolved(self),
        ensures
            final(self.vec())@ == self.vec()@,
    {
    }
}

/// A reserved, not yet written run of `N` slots at the end of a vector.
pub struct VecArrayAllocation<'a, T: 'a, const N: usize> {
    vec: &'a mut Vec<T>,
    index: usize,
}

impl<'a, T, const N: usize> VecArrayAllocation<'a, T, N> {
    /// The borrowed vector: `self.vec()@` is what it holds while the slots are
    /// pending, `final(self.vec())@` what it holds when the borrow ends.
    pub closed spec fn vec(self) -> &'a mut Vec<T> {
        self.vec
    }

    /// The position of the first reserved slot.
    pub closed spec fn index(self) -> usize {
        self.index
    }

    /// The reserved run starts right past the vector's elements.
    #[verifier::type_invariant]
    pub open spec fn wf(self) -> bool {
        self.index() == self.vec()@.len()
    }

    /// Consumes the allocation and writes `value` into the reserved slots, in
    /// order, returning the position of the first one.
    pub fn init(self, value: [T; N]) -> (index: usize)
        ensures
            index == self.index(),
            index == self.vec()@.len(),
            final(self.vec())@ == self.vec()@ + value@,
    {
        proof {
            use_type_invariant(&self);
        }
        let VecArrayAllocation { vec, index } = self;
        extend_from_array(vec, value);
        index
    }

    /// An allocation that is dropped unused hands the vector back unchanged.
    pub broadcast proof fn lemma_abandoned(self)
        requires
            #[trigger] has_resolved(self),
        ensures
            final(self.vec())@ == self.vec()@,
    {
    }
}

/// An entry into a vector, similar to `std::collections::hash_map::Entry`.
pub enum VecEntry<'a, T: 'a> {
    /// The position is the first one past the end: a slot was reserved for it.
    Vacant(VecAllocation<'a, T>),
    /// The position holds an element already.
    Occupied(&'a mut T),
}

impl<'a, T> VecEntry<'a, T> {
    /// Sets the value for this entry: a vacant entry gets its first value, an
    /// occupied one has its value replaced.
    pub fn set(self, value: T)
        ensures
            match self {
                VecEntry::Vacant(allocation) => {
                    final(allocation.vec())@ == allocation.vec()@.push(value)
                },
                VecEntry::Occupied(slot) => *final(slot) == value,
            },
    {
        match self {
            VecEntry::Vacant(allocation) => {
                allocation.init(value);
            },
            VecEntry::Occupied(slot) => {
                *slot = value;
            },
        }
    }
}

/// Helper trait for a `Vec` type that allocates up-front.
pub trait VecHelper<T>: View<V = Seq<T>> {
    /// Makes room for one more element and returns the allocation for it. The
    /// vector's length does not change until the allocation is initialized.
    fn allocate(&mut self) -> (allocation: VecAllocation<'_, T>)
        ensures
            allocation.vec()@ == old(self)@,
            allocation.index() == old(self)@.len(),
            final(self)@ == final(allocation.vec())@,
    ;

    /// Either returns the existing element at `index`, or makes room for one
    /// more element if `index` is the vector's length.
    ///
    /// A position beyond the length has no slot to stand for, as the slots
    /// between it and the length would hold nothing: such a call is a fault of
    /// the caller and stops the program.
    fn entry(&mut self, index: usize) -> (entry: VecEntry<'_, T>)
        requires
            index <= old(self)@.len(),
        ensures
            match entry {
                VecEntry::Occupied(slot) => {
                    &&& index < old(self)@.len()
                    &&& *slot == old(self)@[index as int]
                    &&& final(self)@ == old(self)@.update(index as int, *final(slot))
                },
                VecEntry::Vacant(allocation) => {
                    &&& index == old(self)@.len()
                    &&& allocation.vec()@ == old(self)@
                    &&& allocation.index() == index
                    &&& final(self)@ == final(allocation.vec())@
                },
            },
    ;

    /// Makes room for `N` more elements and returns the allocation for them.
    /// The vector's length does not change until the allocation is
    /// initialized.
    ///
    /// Room is asked for on every call, also where the vector has spare
    /// capacity already; [`VecHelper::allocate`] asks only when the vector is
    /// full.
    fn alloc_multiple<const N: usize>(&mut self) -> (allocation: VecArrayAllocation<'_, T, N>)
        ensures
            allocation.vec()@ == old(self)@,
            allocation.index() == old(self)@.len(),
            final(self)@ == final(allocation.vec())@,
    ;
}

impl<T> VecHelper<T> for Vec<T> {
    fn allocate(&mut self) -> (allocation: VecAllocation<'_, T>) {
        let index: usize = self.len();
        if capacity(self) == index {
            self.reserve(1);
        }
        VecAllocation { vec: self, index }
    }

    fn entry(&mut self, index: usize) -> (entry: VecEntry<'_, T>) {
        if index < self.len() {
            VecEntry::Occupied(&mut self[index])
        } else {
            runtime_assert(index == self.len());
            VecEntry::Vacant(self.allocate())
        }
    }

    fn alloc_multiple<const N: usize>(&mut self) -> (allocation: VecArrayAllocation<'_, T, N>) {
        self.reserve(N);
        let index: usize = self.len();
        VecArrayAllocation { vec: self, index }
    }
}

/// Reserving one slot in a vector that holds `before` and initializing it with
/// `value` leaves a vector one element longer, in which every earlier element
/// stands where it stood and `value` is the last one; the position returned is
/// the length the vector had.
///
/// `allocation` is what [`VecHelper::allocate`] returned, `index` what
/// [`VecAllocation::init`] returned, `after` what the vector holds in the end.
pub proof fn lemma_allocate_init<T>(
    before: Seq<T>,
    value: T,
    allocation: VecAllocation<T>,
    index: usize,
    after: Seq<T>,
)
    requires
        allocation.vec()@ == before,
        allocation.index() == before.len(),
        after == final(allocation.vec())@,
        index == allocation.index(),
        final(allocation.vec())@ == allocation.vec()@.push(value),
    ensures
        after.len() == before.len() + 1,
        forall|i: int| 0 <= i < before.len() ==> after[i] == before[i],
        after[before.len() as int] == value,
        index == before.len(),
{
}

/// Reserving `N` slots in a vector that holds `before` and initializing them
/// with `values` leaves a vector `N` elements longer, in which every earlier
/// element stands where it stood and the new elements are those of `values`,
/// in order; the position returned is the length the vector had.
///
/// `allocation` is what [`VecHelper::alloc_multiple`] returned, `index` what
/// [`VecArrayAllocation::init`] returned, `after` what the vector holds in the
/// end.
pub proof fn lemma_alloc_multiple_init<T, const N: usize>(
    before: Seq<T>,
    values: [T; N],
    allocation: VecArrayAllocation<T, N>,
    index: usize,
    after: Seq<T>,
)
    requires
        allocation.vec()@ == before,
        allocation.index() == before.len(),
        after == final(allocation.vec())@,
        index == allocation.index(),
        final(allocation.vec())@ == allocation.vec()@ + values@,
    ensures
        after.len() == before.len() + N,
        forall|i: int| 0 <= i < before.len() ==> after[i] == before[i],
        forall|j: int| 0 <= j < N ==> after[before.len() + j] == values@[j],
        index == before.len(),
{
}

/// Setting the entry at `index` of a vector that holds `before` replaces the
/// element at `index` and nothing else when the position was occupied, and
/// appends `value` when `index` was the vector's length. An occupied entry
/// never changes the length.
///
/// `entry` is what [`VecHelper::entry`] returned, `after` what the vector holds
/// once [`VecEntry::set`] has run.
pub proof fn lemma_entry_set<T>(
    before: Seq<T>,
    index: usize,
    value: T,
    entry: VecEntry<T>,
    after: Seq<T>,
)
    requires
        index <= before.len(),
        match entry {
            VecEntry::Occupied(slot) => {
                &&& index < before.len()
                &&& *slot == before[index as int]
                &&& after == before.update(index as int, *final(slot))
                &&& *final(slot) == value
            },
            VecEntry::Vacant(allocation) => {
                &&& index == before.len()
                &&& allocation.vec()@ == before
                &&& allocation.index() == index
                &&& after == final(allocation.vec())@
                &&& final(allocation.vec())@ == allocation.vec()@.push(value)
            },
        },
    ensures
        entry is Occupied <==> index < before.len(),
        entry is Occupied ==> after.len() == before.len(),
        entry is Vacant ==> after.len() == before.len() + 1,
        after[index as int] == value,
        forall|i: int| 0 <= i < before.len() && i != index ==> after[i] == before[i],
{
}

/// A slot that was reserved in a vector and then dropped without being
/// initialized leaves the vector as it was before the reservation: the same
/// length, the same elements.
///
/// `allocation` is what [`VecHelper::allocate`] returned, `after` what the
/// vector holds once the allocation is gone.
pub proof fn lemma_allocate_abandoned<T>(
    before: Seq<T>,
    allocation: VecAllocation<T>,
    after: Seq<T>,
)
    requires
        allocation.vec()@ == before,
        after == final(allocation.vec())@,
        has_resolved(allocation),
    ensures
        after == before,
{
    allocation.lemma_abandoned();
}

/// A run of `N` slots that was reserved in a vector and then dropped without
/// being initialized leaves the vector as it was before the reservation.
///
/// `allocation` is what [`VecHelper::alloc_multiple`] returned, `after` what
/// the vector holds once the allocation is gone.
pub proof fn lemma_alloc_multiple_abandoned<T, const N: usize>(
    before: Seq<T>,
    allocation: VecArrayAllocation<T, N>,
    after: Seq<T>,
)
    requires
        allocation.vec()@ == before,
        after == final(allocation.vec())@,
        has_resolved(allocation),
    ensures
        after == before,
{
    allocation.lemma_abandoned();
}

} // verus!
