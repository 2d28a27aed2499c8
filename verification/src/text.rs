//! Contracts for the string operations of the standard library that the
//! crate relies on and that `vstd` leaves unspecified.

use vstd::prelude::*;

verus! {

/// The lowercase form of a string, as `str::to_lowercase` computes it from the
/// Unicode case tables.
pub uninterp spec fn lowercase(s: Seq<char>) -> Seq<char>;

/// The string without its leading and trailing whitespace, as `str::trim`
/// returns it.
pub uninterp spec fn trimmed(s: Seq<char>) -> Seq<char>;

/// `str::to_lowercase` is a function of the characters of its argument alone;
/// the contract gives its result the name [`lowercase`] and claims nothing else.
pub assume_specification[ str::to_lowercase ](s: &str) -> (r: String)
    ensures
        r@ == lowercase(s@),
;

/// `str::trim` is a function of the characters of its argument alone; the
/// contract gives its result the name [`trimmed`] and claims nothing else.
pub assume_specification<'a>[ str::trim ](s: &'a str) -> (r: &'a str)
    ensures
        r@ == trimmed(s@),
;

/// Equality of string slices, `<str as PartialEq>::eq`: two slices are equal
/// exactly when they hold the same characters.
pub assume_specification[ <str as PartialEq>::eq ](a: &str, b: &str) -> (r: bool)
    ensures
        r == (a@ == b@),
;

} // verus!
