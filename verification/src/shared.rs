//! Shared ownership of what several objects are built on.

use vstd::prelude::*;
use std::sync::Arc;

verus! {

/// A second owner of the value that `shared` owns.
///
/// This is `Arc::clone` of the standard library, which is taken on trust:
/// the new pointer is to the same allocation, so what it points to is what
/// `shared` points to.
#[verifier::external_body]
pub(crate) fn share<T>(shared: &Arc<T>) -> (r: Arc<T>)
    ensures
        r == *shared,
{
    Arc::clone(shared)
}

} // verus!
