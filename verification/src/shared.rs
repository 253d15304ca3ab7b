//! Shared ownership: what the library relies on of [`std::sync::Arc`].

use std::sync::Arc;
use vstd::prelude::*;

verus! {

/// [`Arc::get_mut`]: access to the shared value when no other pointer to it exists.
///
/// Taken on trust: with access, the pointer ends up holding what was written through it;
/// without, the pointer is left as it was. Which of the two happens depends on how many
/// pointers there are at run time, and is left open.
#[verifier::external_body]
pub(crate) fn exclusive<T>(shared: &mut Arc<T>) -> (access: Option<&mut T>)
    ensures
        match access {
            Some(value) => *value == **old(shared) && **final(shared) == *final(value),
            None => *final(shared) == *old(shared),
        },
{
    Arc::get_mut(shared)
}

} // verus!
