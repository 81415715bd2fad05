//! What the crate assumes of `String`.

use vstd::prelude::*;

verus! {

/// Specification of `String::push` of the standard library: the character is
/// added at the end of the string and the rest is left as it was.
pub assume_specification[ String::push ](s: &mut String, c: char)
    ensures
        final(s)@ == old(s)@.push(c),
;

} // verus!
