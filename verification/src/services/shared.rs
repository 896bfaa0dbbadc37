//! Handing out a service's shared state.
use vstd::prelude::*;

use std::sync::Arc;

verus! {

/// `Arc::clone`: a new handle to the same allocation, so it holds the very
/// value the original handle holds.
#[verifier::external_body]
pub(crate) fn share<T>(a: &Arc<T>) -> (r: Arc<T>)
    ensures
        r == *a,
{
    Arc::clone(a)
}

} // verus!
