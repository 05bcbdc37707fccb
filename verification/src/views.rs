//! From values to their models, element by element.

use vstd::prelude::*;

verus! {

/// The models of the elements of `items`, in the same order.
pub open spec fn views<T: View>(items: Seq<T>) -> Seq<T::V> {
    Seq::new(items.len(), |i: int| items[i]@)
}

} // verus!
