//! A common capability for validating loaded data structures.

use vstd::prelude::*;

verus! {

/// Implemented by loaded data structures that can check their own
/// consistency. Each implementor states what consistency means for it in
/// [`Validatable::valid`], and its check decides exactly that.
pub trait Validatable: Sized {
    /// Whether the data is valid and consistent.
    spec fn valid(&self) -> bool;

    /// Checks the data: accepts exactly the valid values and reports a
    /// message otherwise.
    fn validate(&self) -> (r: Result<(), String>)
        ensures
            r is Ok <==> self.valid(),
    ;
}

} // verus!
