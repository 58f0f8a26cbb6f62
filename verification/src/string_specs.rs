//! Specifications of standard-library string functions that vstd leaves out.

use vstd::prelude::*;

verus! {

/// `String::push` of the standard library. Assumed, not proved: after the call
/// the string holds the characters it held before, in their order, followed
/// by `ch`.
pub assume_specification[ String::push ](s: &mut String, ch: char)
    ensures
        final(s)@ == old(s)@.push(ch),
;

} // verus!
