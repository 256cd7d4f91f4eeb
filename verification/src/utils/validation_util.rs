//! Checks on what a user types in when signing up.

use vstd::prelude::*;

verus! {

/// Whether `c` is alphanumeric as Unicode has it: a letter or a number of any
/// script.
pub uninterp spec fn is_alphanumeric(c: char) -> bool;

/// Whether `text` matches the regular expression `pattern`; `None` where
/// `pattern` is no regular expression.
pub uninterp spec fn regex_match(pattern: Seq<char>, text: Seq<char>) -> Option<bool>;

/// Calls `char::is_alphanumeric` of the standard library.
#[verifier::external_body]
fn char_is_alphanumeric(c: char) -> (yes: bool)
    ensures
        yes == is_alphanumeric(c),
{
    c.is_alphanumeric()
}

/// Calls `regex::Regex::new` on the pattern and `Regex::is_match` on the
/// text. Hands out nothing where the pattern does not compile.
#[verifier::external_body]
fn pattern_matches(pattern: &str, text: &str) -> (matched: Option<bool>)
    ensures
        matched == regex_match(pattern@, text@),
{
    match regex::Regex::new(pattern) {
        Ok(compiled) => Some(compiled.is_match(text)),
        Err(_) => None,
    }
}

/// The pattern of an e-mail address: a local part, `@`, a domain, a dot and a
/// top-level name of two letters or more, in either case.
pub open spec fn email_pattern() -> Seq<char> {
    "(?i)^[a-z0-9._%+-]+@[a-z0-9.-]+\\.[a-z]{2,}$"@
}

/// Whether every character of `text` may stand in a user name.
pub open spec fn username_chars(text: Seq<char>) -> bool {
    forall|i: int| 0 <= i < text.len() ==> is_alphanumeric(#[trigger] text[i]) || text[i] == '_'
}

/// Whether `email` has the shape of an e-mail address. This is a check of
/// the common shape and passes over some valid addresses.
pub fn validate_email(email: &str) -> (valid: bool)
    ensures
        valid == (regex_match(email_pattern(), email@) == Some(true)),
{
    match pattern_matches("(?i)^[a-z0-9._%+-]+@[a-z0-9.-]+\\.[a-z]{2,}$", email) {
        Some(matched) => matched,
        None => false,
    }
}

/// Whether `username` is at least three bytes long and made of alphanumeric
/// characters and underscores only.
pub fn validate_username(username: &str) -> (valid: bool)
    ensures
        valid == (username.len() >= 3 && username_chars(username@)),
{
    if username.len() < 3 {
        return false;
    }
    let count = username.unicode_len();
    let mut i: usize = 0;
    while i < count
        invariant
            i <= count,
            count == username@.len(),
            forall|j: int| 0 <= j < i ==> is_alphanumeric(#[trigger] username@[j]) || username@[j] == '_',
        decreases count - i,
    {
        let c = username.get_char(i);
        if !(char_is_alphanumeric(c) || c == '_') {
            return false;
        }
        i += 1;
    }
    true
}

} // verus!
