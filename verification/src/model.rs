//! Helpers for the mathematical models of the data types.

use vstd::prelude::*;

verus! {

/// The models of the elements of `items`, in order.
pub open spec fn views<T: View>(items: Seq<T>) -> Seq<T::V> {
    Seq::new(items.len(), |i: int| items[i]@)
}

/// The model of an optional string.
pub open spec fn optional_text(text: Option<String>) -> Option<Seq<char>> {
    match text {
        Some(t) => Some(t@),
        None => None,
    }
}

/// The model of a result: the model of what it holds, on either side.
pub open spec fn outcome<T: View, E: View>(result: Result<T, E>) -> Result<T::V, E::V> {
    match result {
        Ok(value) => Ok(value@),
        Err(error) => Err(error@),
    }
}

/// `views` goes element by element: appending one element appends its model.
pub proof fn lemma_views_push<T: View>(items: Seq<T>, last: T)
    ensures
        views(items.push(last)) == views(items).push(last@),
{
    assert(views(items.push(last)) =~= views(items).push(last@));
}

} // verus!
