//! Models of the standard containers whose content has a model of its own.

use vstd::prelude::*;

verus! {

/// The model of a `Result` whose two sides both have a model.
pub open spec fn result_view<T: View, E: View>(r: Result<T, E>) -> Result<T::V, E::V> {
    match r {
        Ok(value) => Ok(value@),
        Err(error) => Err(error@),
    }
}

/// The model of an `Option` whose content has a model.
pub open spec fn option_view<T: View>(o: Option<T>) -> Option<T::V> {
    match o {
        Some(value) => Some(value@),
        None => None,
    }
}

} // verus!
