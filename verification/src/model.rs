//! Views of the standard containers that the contracts speak of.

use vstd::prelude::*;

verus! {

/// A result by the views of what it holds.
pub open spec fn result_view<T: View, E: View>(r: Result<T, E>) -> Result<T::V, E::V> {
    match r {
        Ok(value) => Ok(value@),
        Err(error) => Err(error@),
    }
}

} // verus!
