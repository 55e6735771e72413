//! Fixed-length arrays whose elements are shared-ownership references that
//! can be updated independently of one another.
//!
//! [`AtomicOptionRefArray`] stores, per slot, either nothing or one
//! reference-counted payload; [`AtomicRefArray`] is the non-optional variant
//! whose slots always hold a value. Each slot is an atomic cell of the
//! `atomic_ref2` crate, so at run time every update is a single atomic
//! exchange; the contracts here describe each array as a mathematical
//! sequence of optional payloads, and public proof functions state the
//! laws that relate consecutive operations through those contracts.

mod into_option_arc;
mod laws;
mod option_ref_array;
mod ref_array;
mod slot;

pub use into_option_arc::IntoOptionArc;
pub use into_option_arc::handle_value;
pub use laws::lemma_store_displaces_previous;
pub use laws::lemma_store_then_load;
pub use laws::lemma_swap_returns_prior;
pub use option_ref_array::AtomicOptionRefArray;
pub use ref_array::AtomicRefArray;
pub use ref_array::IntoArc;
