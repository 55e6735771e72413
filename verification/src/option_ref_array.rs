use crate::into_option_arc::{handle_value, IntoOptionArc};
use crate::slot::Slot;
use std::sync::Arc;
use vstd::prelude::*;

verus! {

/// A fixed-length array of optional shared-ownership references in which
/// every element may be updated and retrieved independently.
///
/// The array is modelled as a sequence of optional payloads: `self@[i]` is
/// `None` for an empty slot and `Some(v)` when the slot holds a payload whose
/// value is `v`. Each slot is one atomic cell, so at run time every update is
/// a single atomic exchange, and a load never touches a payload that a
/// release of the same slot has already freed: the cell serializes minting a
/// new handle with any release (that is `atomic_ref2`'s guarantee; see
/// `slot`).
#[verifier::reject_recursive_types(T)]
pub struct AtomicOptionRefArray<T> {
    slots: Vec<Slot<T>>,
}

impl<T> View for AtomicOptionRefArray<T> {
    type V = Seq<Option<T>>;

    closed spec fn view(&self) -> Seq<Option<T>> {
        Seq::new(self.slots@.len(), |i: int| self.slots@[i]@)
    }
}

impl<T> AtomicOptionRefArray<T> {
    /// Constructs a new array with the specified length.
    /// All slots start out empty.
    pub fn new(len: usize) -> (a: Self)
        ensures
            a@.len() == len,
            forall|i: int| 0 <= i < len ==> a@[i] is None,
    {
        let mut slots: Vec<Slot<T>> = Vec::new();
        let mut i: usize = 0;
        while i < len
            invariant
                i <= len,
                slots@.len() == i,
                forall|j: int| 0 <= j < i ==> slots@[j]@ is None,
            decreases len - i,
        {
            slots.push(Slot::empty());
            i += 1;
        }
        AtomicOptionRefArray { slots }
    }

    /// Holds when `c` is a slot content that the initializer `f`, applied to
    /// index `i`, can have produced: some possible result of `f(i)`
    /// normalizes to a handle whose payload is `c`.
    pub open spec fn slot_initialized<U: IntoOptionArc<T>, F: Fn(usize) -> U>(
        f: F,
        i: usize,
        c: Option<T>,
    ) -> bool {
        exists|u: U| #[trigger] call_ensures(f, (i,), u) && c == u.option_arc_value()
    }

    /// Constructs a new array with the specified length.
    /// Uses the given function to construct the value of each slot in index
    /// order; each result is normalized into an optional handle before it is
    /// written.
    pub fn new_with<U: IntoOptionArc<T>>(len: usize, f: impl Fn(usize) -> U) -> (a: Self)
        requires
            forall|i: usize| i < len ==> call_requires(f, (i,)),
        ensures
            a@.len() == len,
            forall|i: usize| i < len ==> Self::slot_initialized(f, i, #[trigger] a@[i as int]),
    {
        let mut slots: Vec<Slot<T>> = Vec::new();
        let mut i: usize = 0;
        while i < len
            invariant
                i <= len,
                slots@.len() == i,
                forall|i2: usize| i2 < len ==> call_requires(f, (i2,)),
                forall|j: usize|
                    j < i ==> Self::slot_initialized(f, j, #[trigger] slots@[j as int]@),
            decreases len - i,
        {
            let u = f(i);
            let ghost uv = u;
            let h = u.into_option_arc();
            slots.push(Slot::holding(h));
            proof {
                assert(call_ensures(f, (i,), uv));
                assert(slots@[i as int]@ == uv.option_arc_value());
                assert(Self::slot_initialized(f, i, slots@[i as int]@));
            }
            i += 1;
        }
        let a = AtomicOptionRefArray { slots };
        proof {
            assert(forall|i2: usize| i2 < len ==> #[trigger] a@[i2 as int] == a.slots@[i2 as int]@);
        }
        a
    }

    /// Appends one slot holding the normalized handle `value`. This is a
    /// construction-time helper for arrays that are populated slot by slot;
    /// the length is fixed once construction is done.
    pub(crate) fn push_value(&mut self, value: Option<Arc<T>>)
        ensures
            final(self)@ == old(self)@.push(handle_value(value)),
    {
        let ghost c = handle_value(value);
        self.slots.push(Slot::holding(value));
        proof {
            assert(self@ =~= old(self)@.push(c));
        }
    }

    /// Returns the number of slots in the array.
    pub fn len(&self) -> (n: usize)
        ensures
            n == self@.len(),
    {
        self.slots.len()
    }

    /// Returns `true` if the array has a length of 0.
    pub fn is_empty(&self) -> (e: bool)
        ensures
            e == (self@.len() == 0),
    {
        self.slots.is_empty()
    }

    /// Loads the slot at the given position: returns `None` if the slot is
    /// empty, and otherwise a newly minted handle to the slot's payload. The
    /// slot's own content is left untouched.
    pub fn load(&self, index: usize) -> (r: Option<Arc<T>>)
        requires
            index < self@.len(),
        ensures
            handle_value(r) == self@[index as int],
    {
        self.slots[index].load()
    }

    /// Stores the normalized form of `value` in the slot at the given
    /// position. The slot's previous payload, if any, has its reference unit
    /// released.
    pub fn store(&mut self, index: usize, value: impl IntoOptionArc<T>)
        requires
            index < old(self)@.len(),
        ensures
            final(self)@ == old(self)@.update(index as int, value.option_arc_value()),
    {
        let h = value.into_option_arc();
        let slot = &mut self.slots[index];
        slot.store(h);
        proof {
            assert(self@ =~= old(self)@.update(index as int, value.option_arc_value()));
        }
    }

    /// Stores the normalized form of `value` in the slot at the given
    /// position and returns the slot's previous content: `None` if the slot
    /// was empty, and otherwise a handle to the displaced payload, whose
    /// reference unit is transferred to the caller.
    pub fn swap(&mut self, index: usize, value: impl IntoOptionArc<T>) -> (r: Option<Arc<T>>)
        requires
            index < old(self)@.len(),
        ensures
            final(self)@ == old(self)@.update(index as int, value.option_arc_value()),
            handle_value(r) == old(self)@[index as int],
    {
        let h = value.into_option_arc();
        let slot = &mut self.slots[index];
        let r = slot.swap(h);
        proof {
            assert(self@ =~= old(self)@.update(index as int, value.option_arc_value()));
        }
        r
    }
}

} // verus!
