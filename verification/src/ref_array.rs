use crate::into_option_arc::handle_value;
use crate::option_ref_array::AtomicOptionRefArray;
use std::sync::Arc;
use vstd::prelude::*;

verus! {

/// Turns a store or initializer argument into one shared handle: either a
/// raw value, for which a new payload is allocated, or an existing handle,
/// which passes through unchanged.
pub trait IntoArc<T>: Sized {
    /// The payload the handle will refer to.
    spec fn arc_value(self) -> T;

    /// Turns `self` into a shared handle whose payload is exactly
    /// `arc_value`.
    fn into_arc(self) -> (r: Arc<T>)
        ensures
            *r == self.arc_value(),
    ;
}

impl<T> IntoArc<T> for T {
    open spec fn arc_value(self) -> T {
        self
    }

    fn into_arc(self) -> (r: Arc<T>) {
        Arc::new(self)
    }
}

impl<T> IntoArc<T> for Arc<T> {
    open spec fn arc_value(self) -> T {
        *self
    }

    fn into_arc(self) -> (r: Arc<T>) {
        self
    }
}

/// A fixed-length array of non-optional shared-ownership references in which
/// every element may be updated and retrieved independently.
///
/// Every operation delegates to [`AtomicOptionRefArray`]; construction fills
/// every slot, and from then on every slot always holds a value, so the
/// array is modelled as a sequence of payloads: `self@[i]` is the value of
/// the payload held by slot `i`.
#[verifier::reject_recursive_types(T)]
pub struct AtomicRefArray<T> {
    buf: AtomicOptionRefArray<T>,
}

impl<T> View for AtomicRefArray<T> {
    type V = Seq<T>;

    closed spec fn view(&self) -> Seq<T> {
        Seq::new(self.buf@.len(), |i: int| self.buf@[i]->Some_0)
    }
}

impl<T> AtomicRefArray<T> {
    /// Every slot of the underlying optional array holds a value. If a slot
    /// were ever observed empty, that would be an internal invariant
    /// violation, never a normal outcome.
    #[verifier::type_invariant]
    spec fn always_occupied(self) -> bool {
        forall|i: int| 0 <= i < self.buf@.len() ==> self.buf@[i] is Some
    }

    /// Holds when `v` is a payload that the type's default constructor can
    /// have produced.
    pub open spec fn slot_defaulted(v: T) -> bool where T: Default {
        exists|d: T| #[trigger] call_ensures(T::default, (), d) && v == d
    }

    /// Constructs a new array with the specified length.
    /// Every slot is populated with the type's default value.
    pub fn new(len: usize) -> (a: Self) where T: Default
        ensures
            a@.len() == len,
            forall|i: usize| i < len ==> Self::slot_defaulted(#[trigger] a@[i as int]),
    {
        let mut buf = AtomicOptionRefArray::new(0);
        let mut i: usize = 0;
        while i < len
            invariant
                i <= len,
                buf@.len() == i,
                forall|j: int| 0 <= j < i ==> buf@[j] is Some,
                forall|j: usize|
                    j < i ==> Self::slot_defaulted(#[trigger] buf@[j as int]->Some_0),
            decreases len - i,
        {
            let d = T::default();
            let ghost dv = d;
            buf.push_value(Some(Arc::new(d)));
            proof {
                assert(call_ensures(T::default, (), dv));
                assert(buf@[i as int]->Some_0 == dv);
                assert(Self::slot_defaulted(buf@[i as int]->Some_0));
            }
            i += 1;
        }
        let a = AtomicRefArray { buf };
        proof {
            assert(forall|i2: usize|
                i2 < len ==> #[trigger] a@[i2 as int] == a.buf@[i2 as int]->Some_0);
        }
        a
    }

    /// Holds when `v` is a payload that the initializer `f`, applied to
    /// index `i`, can have produced: some possible result of `f(i)` turns
    /// into a handle whose payload is `v`.
    pub open spec fn slot_built<U: IntoArc<T>, F: Fn(usize) -> U>(f: F, i: usize, v: T) -> bool {
        exists|u: U| #[trigger] call_ensures(f, (i,), u) && v == u.arc_value()
    }

    /// Constructs a new array with the specified length.
    /// Uses the given function to construct the value of each slot in index
    /// order; each result is turned into a shared handle before it is
    /// written.
    pub fn new_with<U: IntoArc<T>>(len: usize, f: impl Fn(usize) -> U) -> (a: Self)
        requires
            forall|i: usize| i < len ==> call_requires(f, (i,)),
        ensures
            a@.len() == len,
            forall|i: usize| i < len ==> Self::slot_built(f, i, #[trigger] a@[i as int]),
    {
        let mut buf = AtomicOptionRefArray::new(0);
        let mut i: usize = 0;
        while i < len
            invariant
                i <= len,
                buf@.len() == i,
                forall|i2: usize| i2 < len ==> call_requires(f, (i2,)),
                forall|j: int| 0 <= j < i ==> buf@[j] is Some,
                forall|j: usize|
                    j < i ==> Self::slot_built(f, j, #[trigger] buf@[j as int]->Some_0),
            decreases len - i,
        {
            let u = f(i);
            let ghost uv = u;
            buf.push_value(Some(u.into_arc()));
            proof {
                assert(call_ensures(f, (i,), uv));
                assert(buf@[i as int]->Some_0 == uv.arc_value());
                assert(Self::slot_built(f, i, buf@[i as int]->Some_0));
            }
            i += 1;
        }
        let a = AtomicRefArray { buf };
        proof {
            assert(forall|i2: usize| i2 < len ==> #[trigger] a@[i2 as int] == a.buf@[i2 as int]->Some_0);
        }
        a
    }

    /// Returns the number of slots in the array.
    pub fn len(&self) -> (n: usize)
        ensures
            n == self@.len(),
    {
        self.buf.len()
    }

    /// Returns `true` if the array has a length of 0.
    pub fn is_empty(&self) -> (e: bool)
        ensures
            e == (self@.len() == 0),
    {
        self.buf.is_empty()
    }

    /// Loads the slot at the given position and returns a newly minted
    /// handle to its payload. The result is never absent: the slot's
    /// invariant guarantees a value is there.
    pub fn load(&self, index: usize) -> (r: Arc<T>)
        requires
            index < self@.len(),
        ensures
            *r == self@[index as int],
    {
        proof {
            use_type_invariant(&*self);
        }
        self.buf.load(index).unwrap()
    }

    /// Stores the handle form of `value` in the slot at the given position.
    /// The slot's previous payload has its reference unit released.
    pub fn store(&mut self, index: usize, value: impl IntoArc<T>)
        requires
            index < old(self)@.len(),
        ensures
            final(self)@ == old(self)@.update(index as int, value.arc_value()),
    {
        proof {
            use_type_invariant(&*self);
        }
        let h = value.into_arc();
        // The occupancy invariant must hold of `self` even if the delegated
        // call unwound, so the buffer is moved out (leaving a zero-length
        // array, which holds the invariant trivially) and moved back after.
        let mut buf = AtomicOptionRefArray::new(0);
        std::mem::swap(&mut buf, &mut self.buf);
        buf.store(index, Some(h));
        std::mem::swap(&mut buf, &mut self.buf);
        proof {
            assert(self@ =~= old(self)@.update(index as int, value.arc_value()));
        }
    }

    /// Stores the handle form of `value` in the slot at the given position
    /// and returns a handle to the displaced payload, whose reference unit
    /// is transferred to the caller. The result is never absent.
    pub fn swap(&mut self, index: usize, value: impl IntoArc<T>) -> (r: Arc<T>)
        requires
            index < old(self)@.len(),
        ensures
            final(self)@ == old(self)@.update(index as int, value.arc_value()),
            *r == old(self)@[index as int],
    {
        proof {
            use_type_invariant(&*self);
        }
        let h = value.into_arc();
        // Same buffer dance as in `store`, for the same reason.
        let mut buf = AtomicOptionRefArray::new(0);
        std::mem::swap(&mut buf, &mut self.buf);
        let prev = buf.swap(index, Some(h));
        std::mem::swap(&mut buf, &mut self.buf);
        proof {
            assert(self@ =~= old(self)@.update(index as int, value.arc_value()));
        }
        prev.unwrap()
    }
}

} // verus!
