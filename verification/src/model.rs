//! The models of optional and fallible values: the model of whatever they
//! hold.

use vstd::prelude::*;

verus! {

/// The model of an optional value.
pub open spec fn option_view<T: View>(value: Option<T>) -> Option<T::V> {
    match value {
        Some(held) => Some(held@),
        None => None,
    }
}

/// The model of a value or an error.
pub open spec fn result_view<T: View, E: View>(value: Result<T, E>) -> Result<T::V, E::V> {
    match value {
        Ok(held) => Ok(held@),
        Err(error) => Err(error@),
    }
}

} // verus!
