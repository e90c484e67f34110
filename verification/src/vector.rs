//! The storage engine of the dynamic array: an owning buffer of element
//! slots, a live-element count tracked separately from the allocated
//! capacity, and a caller-supplied growth policy consulted when an append
//! overflows the buffer.
//!
//! The buffer is a sequence of `capacity` slots, each either live
//! (`Some(element)`) or uninitialized (`None`). The live elements always
//! occupy the prefix `[0, size)`; the remaining slots are never read or
//! exposed. Replacing a slot's contents releases the previous element, and
//! dropping the array releases exactly the live elements.

use vstd::prelude::*;

verus! {

/// Why an operation on a [`Vector`] was refused. Every failing operation
/// reports its reason and leaves the array's observable state unchanged.
#[derive(Clone, Copy, Debug, PartialEq, Eq, Structural)]
pub enum VectorError {
    /// A capacity of zero was requested, at construction or as a resize target.
    InvalidArgument,
    /// An append overflowed a fixed-capacity array, which never grows.
    CapacityExceeded,
    /// A write was aimed at or beyond the live-element count.
    IndexOutOfBounds,
    /// A resize target was smaller than the current live-element count.
    ShrinkBelowSize,
    /// The growth policy failed to produce a strictly larger capacity.
    InvalidGrowthPolicy,
}

/// A growable, contiguous array of `T` with manual capacity control.
///
/// `capacity` (the number of allocated slots) is tracked separately from
/// `size` (the number of live elements); the stored `scale_fn` maps the
/// current capacity to a strictly larger one whenever a growing append
/// needs more room, and `fixed` forbids such growth entirely.
pub struct Vector<T, F> {
    buffer: Vec<Option<T>>,
    fixed: bool,
    size: usize,
    scale_fn: F,
}

impl<T, F: Fn(usize) -> usize> View for Vector<T, F> {
    type V = Seq<T>;

    /// The abstract value of the array: its live elements, in index order.
    closed spec fn view(&self) -> Seq<T> {
        Seq::new(self.size as nat, |i: int| self.buffer@[i]->Some_0)
    }
}

impl<T, F: Fn(usize) -> usize> Vector<T, F> {
    /// Number of allocated element slots, live or not.
    pub closed spec fn spec_capacity(&self) -> nat {
        self.buffer@.len()
    }

    /// Whether the array refuses to grow on append.
    pub closed spec fn spec_fixed(&self) -> bool {
        self.fixed
    }

    /// The stored growth policy.
    pub closed spec fn spec_scale_fn(&self) -> F {
        self.scale_fn
    }

    /// Well-formedness: at least one slot is allocated, the live elements
    /// fill exactly the prefix `[0, size)` of the buffer, and the growth
    /// policy may be consulted at any capacity.
    pub closed spec fn wf(&self) -> bool {
        &&& 1 <= self.buffer@.len()
        &&& self.size <= self.buffer@.len()
        &&& forall|i: int| 0 <= i < self.size ==> self.buffer@[i] is Some
        &&& forall|i: int| self.size <= i < self.buffer@.len() ==> self.buffer@[i] is None
        &&& forall|c: usize| #[trigger] call_requires(self.scale_fn, (c,))
    }

    /// The allocated capacity never falls below the live-element count, and
    /// never reaches zero, on any well-formed array.
    pub proof fn lemma_capacity_invariant(&self)
        requires
            self.wf(),
        ensures
            self@.len() <= self.spec_capacity(),
            1 <= self.spec_capacity(),
    {
    }

    /// Builds an array with exactly `capacity` uninitialized slots, no live
    /// elements, and the given fixed-ness and growth policy, both stored
    /// verbatim. A zero capacity is refused.
    pub fn new(capacity: usize, fixed: bool, scale: F) -> (r: Result<Self, VectorError>)
        requires
            forall|c: usize| #[trigger] call_requires(scale, (c,)),
        ensures
            capacity == 0 ==> (r matches Err(e) && e == VectorError::InvalidArgument),
            capacity > 0 ==> (r matches Ok(v) && {
                &&& v.wf()
                &&& v@ == Seq::<T>::empty()
                &&& v.spec_capacity() == capacity
                &&& v.spec_fixed() == fixed
                &&& v.spec_scale_fn() == scale
            }),
    {
        if capacity == 0 {
            return Err(VectorError::InvalidArgument);
        }
        let mut buffer: Vec<Option<T>> = Vec::new();
        let mut i: usize = 0;
        while i < capacity
            invariant
                i <= capacity,
                buffer@.len() == i,
                forall|j: int| 0 <= j < i ==> buffer@[j] is None,
            decreases capacity - i,
        {
            buffer.push(None);
            i = i + 1;
        }
        let v = Vector { buffer, fixed, size: 0, scale_fn: scale };
        proof {
            assert(v@ =~= Seq::<T>::empty());
        }
        Ok(v)
    }

    /// True exactly when the array holds no live element.
    pub fn is_empty(&self) -> (r: bool)
        ensures
            r == (self@.len() == 0),
    {
        self.size == 0
    }

    /// The number of live elements.
    pub fn get_size(&self) -> (r: usize)
        ensures
            r == self@.len(),
    {
        self.size
    }

    /// Whether the array was constructed with growth on append forbidden.
    pub fn is_fixed(&self) -> (r: bool)
        ensures
            r == self.spec_fixed(),
    {
        self.fixed
    }

    /// The number of allocated slots.
    pub fn get_capacity(&self) -> (r: usize)
        ensures
            r == self.spec_capacity(),
    {
        self.buffer.len()
    }

    /// Reshapes the buffer to exactly `new_cap` slots, keeping every live
    /// element at its index and leaving every further slot uninitialized.
    fn resize_buffer(&mut self, new_cap: usize)
        requires
            old(self).wf(),
            new_cap >= old(self).size,
            new_cap >= 1,
        ensures
            final(self).wf(),
            final(self)@ == old(self)@,
            final(self).size == old(self).size,
            final(self).fixed == old(self).fixed,
            final(self).scale_fn == old(self).scale_fn,
            final(self).buffer@.len() == new_cap,
    {
        if new_cap <= self.buffer.len() {
            self.buffer.truncate(new_cap);
            proof {
                assert(self@ =~= old(self)@);
            }
            return;
        }
        while self.buffer.len() < new_cap
            invariant
                self.size <= self.buffer@.len() <= new_cap,
                self.size == old(self).size,
                self.fixed == old(self).fixed,
                self.scale_fn == old(self).scale_fn,
                forall|j: int| 0 <= j < self.size ==> self.buffer@[j] == old(self).buffer@[j],
                forall|j: int| self.size <= j < self.buffer@.len() ==> self.buffer@[j] is None,
            decreases new_cap - self.buffer@.len(),
        {
            self.buffer.push(None);
        }
        proof {
            assert(self@ =~= old(self)@);
        }
    }

    /// Appends `value` after the last live element. When the buffer is full:
    /// a fixed array refuses with `CapacityExceeded`; otherwise the stored
    /// growth policy proposes a new capacity, which must be strictly larger
    /// than the current one (`InvalidGrowthPolicy` otherwise), the buffer is
    /// reshaped to it with every existing element kept unchanged at its
    /// index, and the append proceeds.
    pub fn push(&mut self, value: T) -> (r: Result<(), VectorError>)
        requires
            old(self).wf(),
        ensures
            final(self).wf(),
            final(self).spec_fixed() == old(self).spec_fixed(),
            final(self).spec_scale_fn() == old(self).spec_scale_fn(),
            old(self)@.len() < old(self).spec_capacity() ==> {
                &&& r is Ok
                &&& final(self)@ == old(self)@.push(value)
                &&& final(self).spec_capacity() == old(self).spec_capacity()
            },
            old(self)@.len() >= old(self).spec_capacity() && old(self).spec_fixed() ==> (
            r matches Err(e) && e == VectorError::CapacityExceeded),
            old(self)@.len() >= old(self).spec_capacity() && !old(self).spec_fixed()
                ==> exists|new_cap: usize|
                {
                    &&& #[trigger] call_ensures(
                        old(self).spec_scale_fn(),
                        ((old(self).spec_capacity() as usize),),
                        new_cap,
                    )
                    &&& new_cap > old(self).spec_capacity() ==> {
                        &&& r is Ok
                        &&& final(self)@ == old(self)@.push(value)
                        &&& final(self).spec_capacity() == new_cap
                    }
                    &&& new_cap <= old(self).spec_capacity() ==> (r matches Err(e) && e
                        == VectorError::InvalidGrowthPolicy)
                },
            r is Ok ==> final(self)@ == old(self)@.push(value) && forall|i: int|
                0 <= i < old(self)@.len() ==> final(self)@[i] == old(self)@[i],
            r is Err ==> final(self)@ == old(self)@ && final(self).spec_capacity() == old(self).spec_capacity(),
    {
        if self.size >= self.buffer.len() {
            if self.fixed {
                return Err(VectorError::CapacityExceeded);
            }
            let current = self.buffer.len();
            let new_cap = (self.scale_fn)(current);
            proof {
                assert(call_ensures(
                    old(self).spec_scale_fn(),
                    ((old(self).spec_capacity() as usize),),
                    new_cap,
                ));
            }
            if new_cap <= current {
                return Err(VectorError::InvalidGrowthPolicy);
            }
            self.resize_buffer(new_cap);
        }
        let index = self.size;
        self.buffer[index] = Some(value);
        self.size = index + 1;
        proof {
            assert(self@ =~= old(self)@.push(value));
        }
        Ok(())
    }

    /// Bounds-checked read: the element at `index`, or absence when `index`
    /// is at or beyond the live-element count. Never reads an uninitialized
    /// slot.
    pub fn get(&self, index: usize) -> (r: Option<&T>)
        requires
            self.wf(),
        ensures
            index < self@.len() ==> (r matches Some(e) && *e == self@[index as int]),
            index >= self@.len() ==> r is None,
    {
        if index >= self.size {
            return None;
        }
        self.buffer[index].as_ref()
    }

    /// Overwrites the live element at `index` in place, releasing the value
    /// it replaces; the live-element count and the capacity are untouched.
    /// An index at or beyond the live-element count is refused with
    /// `IndexOutOfBounds`, before any mutation.
    pub fn set(&mut self, index: usize, value: T) -> (r: Result<(), VectorError>)
        requires
            old(self).wf(),
        ensures
            final(self).wf(),
            final(self).spec_capacity() == old(self).spec_capacity(),
            final(self).spec_fixed() == old(self).spec_fixed(),
            final(self).spec_scale_fn() == old(self).spec_scale_fn(),
            index < old(self)@.len() ==> r is Ok && final(self)@ == old(self)@.update(
                index as int,
                value,
            ),
            index >= old(self)@.len() ==> (r matches Err(e) && e == VectorError::IndexOutOfBounds)
                && final(self)@ == old(self)@,
    {
        if index >= self.size {
            return Err(VectorError::IndexOutOfBounds);
        }
        self.buffer[index] = Some(value);
        proof {
            assert(self@ =~= old(self)@.update(index as int, value));
        }
        Ok(())
    }

    /// Removes the last live element, releasing it; the capacity is
    /// untouched. Does nothing on an empty array.
    pub fn drop_last(&mut self)
        requires
            old(self).wf(),
        ensures
            final(self).wf(),
            final(self).spec_capacity() == old(self).spec_capacity(),
            final(self).spec_fixed() == old(self).spec_fixed(),
            final(self).spec_scale_fn() == old(self).spec_scale_fn(),
            old(self)@.len() == 0 ==> final(self)@ == old(self)@,
            old(self)@.len() > 0 ==> final(self)@ == old(self)@.drop_last(),
    {
        if self.is_empty() {
            return;
        }
        self.size = self.size - 1;
        let index = self.size;
        self.buffer[index] = None;
        proof {
            assert(self@ =~= old(self)@.drop_last());
        }
    }

    /// Shrinks the allocation down to exactly the live-element count,
    /// keeping every element unchanged at its index. Does nothing on a
    /// fixed array, on an empty one, or when no slot is spare; so on a
    /// growable, non-empty array the capacity always ends equal to the
    /// live-element count.
    pub fn fit_in(&mut self)
        requires
            old(self).wf(),
        ensures
            final(self).wf(),
            final(self)@ == old(self)@,
            final(self).spec_fixed() == old(self).spec_fixed(),
            final(self).spec_scale_fn() == old(self).spec_scale_fn(),
            (old(self).spec_fixed() || old(self)@.len() == 0 || old(self)@.len() >= old(self).spec_capacity()) ==> final(self).spec_capacity() == old(self).spec_capacity(),
            !old(self).spec_fixed() && old(self)@.len() > 0 ==> final(self).spec_capacity() == old(self)@.len(),
    {
        if self.fixed || self.size >= self.buffer.len() || self.size == 0 {
            return;
        }
        let new_cap = self.size;
        self.resize_buffer(new_cap);
    }

    /// Reshapes the allocation to exactly `size` slots, keeping every live
    /// element unchanged at its index; allowed even on a fixed array, as an
    /// explicit escape hatch distinct from growth on append. A zero target
    /// is refused with `InvalidArgument`, and one below the live-element
    /// count with `ShrinkBelowSize`, both before any mutation.
    pub fn reallocate(&mut self, size: usize) -> (r: Result<(), VectorError>)
        requires
            old(self).wf(),
        ensures
            final(self).wf(),
            final(self)@ == old(self)@,
            final(self).spec_fixed() == old(self).spec_fixed(),
            final(self).spec_scale_fn() == old(self).spec_scale_fn(),
            size == 0 ==> (r matches Err(e) && e == VectorError::InvalidArgument) && final(self).spec_capacity() == old(self).spec_capacity(),
            0 < size < old(self)@.len() ==> (r matches Err(e) && e == VectorError::ShrinkBelowSize)
                && final(self).spec_capacity() == old(self).spec_capacity(),
            size > 0 && size >= old(self)@.len() ==> r is Ok && final(self).spec_capacity() == size,
    {
        if size == 0 {
            return Err(VectorError::InvalidArgument);
        }
        if self.size > size {
            return Err(VectorError::ShrinkBelowSize);
        }
        self.resize_buffer(size);
        Ok(())
    }
}

} // verus!
