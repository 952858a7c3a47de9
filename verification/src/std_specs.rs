//! Specifications of the standard library functions that the crate calls
//! and that come without one. Each is taken on trust from the function's
//! documentation.

use vstd::prelude::*;

verus! {

/// `String::push` appends the character to the end of the string and
/// changes nothing else of it.
pub assume_specification[ String::push ](s: &mut String, c: char)
    ensures
        final(s)@ == old(s)@.push(c),
;

} // verus!
