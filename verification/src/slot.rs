use crate::into_option_arc::handle_value;
use std::sync::Arc;
use vstd::prelude::*;

verus! {

#[verifier::external_type_specification]
#[verifier::external_body]
#[verifier::reject_recursive_types(T)]
pub struct ExAtomicOptionRef<T>(atomic_ref2::AtomicOptionRef<T>);

/// One slot of an array: an atomic cell of the `atomic_ref2` crate paired
/// with the payload it currently holds, kept as the slot's mathematical
/// content. Every access to the cell goes through the methods below, which
/// keep cell and content in step.
#[verifier::reject_recursive_types(T)]
pub(crate) struct Slot<T> {
    cell: atomic_ref2::AtomicOptionRef<T>,
    contents: Ghost<Option<T>>,
}

impl<T> View for Slot<T> {
    type V = Option<T>;

    closed spec fn view(&self) -> Option<T> {
        self.contents@
    }
}

impl<T> Slot<T> {
    /// Relies on `atomic_ref2::AtomicOptionRef::new`: a fresh cell holds
    /// nothing.
    #[verifier::external_body]
    pub(crate) fn empty() -> (s: Self)
        ensures
            s@ is None,
    {
        Slot { cell: atomic_ref2::AtomicOptionRef::new(), contents: Ghost(None) }
    }

    /// Relies on `atomic_ref2::AtomicOptionRef::from`: the new cell holds
    /// exactly the handle it is given (an optional handle passes through
    /// `atomic_ref2` unchanged).
    #[verifier::external_body]
    pub(crate) fn holding(value: Option<Arc<T>>) -> (s: Self)
        ensures
            s@ == handle_value(value),
    {
        let ghost c = handle_value(value);
        Slot { cell: atomic_ref2::AtomicOptionRef::from(value), contents: Ghost(c) }
    }

    /// Relies on `atomic_ref2::AtomicOptionRef::load`: returns a newly minted
    /// handle to the payload the cell currently holds (or `None` for an empty
    /// cell) and leaves the cell's own content untouched.
    #[verifier::external_body]
    pub(crate) fn load(&self) -> (r: Option<Arc<T>>)
        ensures
            handle_value(r) == self@,
    {
        self.cell.load()
    }

    /// Relies on `atomic_ref2::AtomicOptionRef::store`: the cell gives up its
    /// previous content, releasing that payload's reference unit, and holds
    /// the given handle from then on.
    #[verifier::external_body]
    pub(crate) fn store(&mut self, value: Option<Arc<T>>)
        ensures
            final(self)@ == handle_value(value),
    {
        self.cell.store(value);
    }

    /// Relies on `atomic_ref2::AtomicOptionRef::swap`: the cell holds the
    /// given handle from then on and hands its previous content back to the
    /// caller, transferring that payload's reference unit.
    #[verifier::external_body]
    pub(crate) fn swap(&mut self, value: Option<Arc<T>>) -> (r: Option<Arc<T>>)
        ensures
            final(self)@ == handle_value(value),
            handle_value(r) == old(self)@,
    {
        self.cell.swap(value)
    }
}

} // verus!
