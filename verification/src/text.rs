//! Small helpers on text.

use vstd::prelude::*;
use vstd::string::*;

verus! {

/// What a result is in the terms of the contracts: the view of its value,
/// or the view of its error.
pub open spec fn result_view<T: DeepView, E: DeepView>(r: Result<T, E>) -> Result<T::V, E::V> {
    match r {
        Ok(value) => Ok(value.deep_view()),
        Err(error) => Err(error.deep_view()),
    }
}

/// `first` followed by `second`.
pub fn join(first: &str, second: &str) -> (r: String)
    ensures
        r@ == first@ + second@,
{
    String::from_str(first).concat(second)
}

/// Whether the two texts are the same.
pub fn same(first: &str, second: &str) -> (r: bool)
    ensures
        r == (first@ == second@),
{
    String::from_str(first) == String::from_str(second)
}

} // verus!
