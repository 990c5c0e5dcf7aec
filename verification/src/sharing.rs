use std::sync::Arc;
use vstd::prelude::*;

verus! {

/// Another handle to the value that `handle` holds.
///
/// Calls the `clone` of `std::sync::Arc`, which makes a pointer to the same allocation. The
/// contract claims that both handles hold the same value.
#[verifier::external_body]
pub(crate) fn share<T>(handle: &Arc<T>) -> (other: Arc<T>)
    ensures
        other == *handle,
{
    handle.clone()
}

} // verus!
