//! What the library takes for granted about string slices.

use vstd::prelude::*;

verus! {

/// Equality of string slices, `<str as PartialEq>::eq` of the standard library.
///
/// Not proved here: two slices compare equal exactly when they hold the same
/// characters in the same order.
pub assume_specification[ <str as PartialEq>::eq ](a: &str, b: &str) -> (same: bool)
    ensures
        same == (a@ == b@),
;

} // verus!
