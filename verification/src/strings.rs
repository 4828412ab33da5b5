//! What this crate takes on trust about the standard `String`.

use vstd::prelude::*;

verus! {

/// `String::push` of the standard library, which appends one character:
/// afterwards the string holds what it held before, followed by `ch`.
/// Nothing here is proved; the claim is the one the standard library's
/// documentation makes. As with `Vec::push`, running out of memory is not
/// modelled.
pub assume_specification[ String::push ](s: &mut String, ch: char)
    ensures
        final(s)@ == old(s)@.push(ch),
;

} // verus!
