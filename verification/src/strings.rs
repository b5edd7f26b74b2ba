//! What this library takes for granted of the standard library's strings
//! beyond what `vstd` states.

use vstd::prelude::*;

verus! {

/// `String::push` appends the character to the end of the string and
/// leaves what was there as it was.
pub assume_specification[ String::push ](s: &mut String, ch: char)
    ensures
        final(s)@ == old(s)@.push(ch),
;

} // verus!
