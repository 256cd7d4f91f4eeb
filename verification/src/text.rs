//! What the library takes on trust about text handling in the standard library.

use vstd::prelude::*;

verus! {

/// Calls `str`'s equality test from the standard library. Trusted: two string
/// slices compare equal exactly when they hold the same characters.
#[verifier::external_body]
pub(crate) fn same_text(a: &str, b: &str) -> (same: bool)
    ensures
        same == (a@ == b@),
{
    a == b
}

/// Collects characters into a `String` with the standard library's
/// `collect`. Trusted: the text holds the characters, in order.
#[verifier::external_body]
pub(crate) fn text_of_chars(chars: &Vec<char>) -> (text: String)
    ensures
        text@ == chars@,
{
    chars.iter().collect()
}

} // verus!
