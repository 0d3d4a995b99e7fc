//! Taking a list apart from its front.

use vstd::prelude::*;

verus! {

/// The items in the opposite order, so that the first can be taken off the
/// end.
pub fn reversed<T>(items: Vec<T>) -> (turned: Vec<T>)
    ensures
        turned@.len() == items@.len(),
        forall|j: int| 0 <= j < turned@.len() ==> turned@[j] == items@[items@.len() - 1 - j],
{
    let mut pending = items;
    let mut turned: Vec<T> = Vec::new();
    while pending.len() > 0
        invariant
            pending@ == items@.take(pending@.len() as int),
            turned@.len() + pending@.len() == items@.len(),
            forall|j: int| 0 <= j < turned@.len() ==> turned@[j] == items@[items@.len() - 1 - j],
        decreases pending.len(),
    {
        let item = pending.pop().unwrap();
        turned.push(item);
    }
    turned
}

} // verus!
