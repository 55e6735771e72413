use std::sync::Arc;
use vstd::prelude::*;

verus! {

/// The payload an optional shared handle refers to, if any.
pub open spec fn handle_value<T>(h: Option<Arc<T>>) -> Option<T> {
    match h {
        Some(a) => Some(*a),
        None => None,
    }
}

/// Normalizes a store or initializer argument into one uniform optional
/// shared-handle form.
///
/// Three kinds of input are accepted: a raw value (a new payload is
/// allocated for it), an existing handle (passed through unchanged, no
/// allocation), and an existing optional handle (passed through as is).
pub trait IntoOptionArc<T>: Sized {
    /// The payload the normalized handle will refer to, if any.
    spec fn option_arc_value(self) -> Option<T>;

    /// Normalizes `self` into an optional shared handle whose payload is
    /// exactly `option_arc_value`.
    fn into_option_arc(self) -> (r: Option<Arc<T>>)
        ensures
            handle_value(r) == self.option_arc_value(),
    ;
}

impl<T> IntoOptionArc<T> for T {
    open spec fn option_arc_value(self) -> Option<T> {
        Some(self)
    }

    fn into_option_arc(self) -> (r: Option<Arc<T>>) {
        Some(Arc::new(self))
    }
}

impl<T> IntoOptionArc<T> for Arc<T> {
    open spec fn option_arc_value(self) -> Option<T> {
        Some(*self)
    }

    fn into_option_arc(self) -> (r: Option<Arc<T>>) {
        Some(self)
    }
}

impl<T> IntoOptionArc<T> for Option<Arc<T>> {
    open spec fn option_arc_value(self) -> Option<T> {
        handle_value(self)
    }

    fn into_option_arc(self) -> (r: Option<Arc<T>>) {
        self
    }
}

} // verus!
