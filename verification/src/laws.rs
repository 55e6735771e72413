use crate::into_option_arc::handle_value;
use std::sync::Arc;
use vstd::prelude::*;

verus! {

// The contracts of the array operations describe an array as a sequence of
// optional payloads: `store(i, v)` and `swap(i, v)` take the model from `s`
// to `s.update(i, v)`, `load(i)` returns a handle whose payload is the model
// at `i`, and `swap(i, v)` returns a handle whose payload is the model at
// `i` before the exchange. The laws below relate consecutive operations
// through those contracts.

/// Round trip: storing content `v` at index `i` and then loading index `i`
/// yields a handle whose payload is exactly `v`.
///
/// `stored` is the array's model after the store, as `store`'s contract
/// gives it, and `loaded` is what `load`'s contract then returns.
pub proof fn lemma_store_then_load<T>(
    s: Seq<Option<T>>,
    i: int,
    v: Option<T>,
    stored: Seq<Option<T>>,
    loaded: Option<Arc<T>>,
)
    requires
        0 <= i < s.len(),
        stored == s.update(i, v),
        handle_value(loaded) == stored[i],
    ensures
        handle_value(loaded) == v,
{
}

/// A second store displaces the first: after storing `v1` and then `v2` at
/// the same index, the array is exactly as if only `v2` had been stored —
/// no slot of the array still reaches `v1`'s payload any more. (The
/// payload itself is freed once the last handle minted before the second
/// store is dropped; reference counts are the cells' own bookkeeping and lie
/// outside this model.)
pub proof fn lemma_store_displaces_previous<T>(
    s: Seq<Option<T>>,
    i: int,
    v1: Option<T>,
    v2: Option<T>,
)
    requires
        0 <= i < s.len(),
    ensures
        s.update(i, v1).update(i, v2) == s.update(i, v2),
{
    assert(s.update(i, v1).update(i, v2) =~= s.update(i, v2));
}

/// A swap hands back the prior content: after storing `v1` at index `i`, a
/// swap with `v2` returns a handle whose payload is exactly `v1`, and a
/// subsequent load at `i` yields `v2`.
///
/// `stored` is the model after the first store, `swapped` the model after
/// the swap, `prior` the handle the swap returns, and `loaded` what `load`'s
/// contract then returns.
pub proof fn lemma_swap_returns_prior<T>(
    s: Seq<Option<T>>,
    i: int,
    v1: Option<T>,
    v2: Option<T>,
    stored: Seq<Option<T>>,
    swapped: Seq<Option<T>>,
    prior: Option<Arc<T>>,
    loaded: Option<Arc<T>>,
)
    requires
        0 <= i < s.len(),
        stored == s.update(i, v1),
        swapped == stored.update(i, v2),
        handle_value(prior) == stored[i],
        handle_value(loaded) == swapped[i],
    ensures
        handle_value(prior) == v1,
        handle_value(loaded) == v2,
{
}

} // verus!
