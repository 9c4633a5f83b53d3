//! The classes of characters that the key bindings and the motions tell
//! apart.

use vstd::prelude::*;

verus! {

/// Whether `ch` has the Unicode property `White_Space`.
pub uninterp spec fn is_whitespace(ch: char) -> bool;

/// Whether `ch` has the Unicode property `Uppercase`.
pub uninterp spec fn is_uppercase(ch: char) -> bool;

/// Calls `char::is_whitespace` of the standard library, which tells whether a
/// char has the Unicode property `White_Space`. The table of that property is
/// not written out here: the result is known as [`is_whitespace`].
#[verifier::external_body]
pub(crate) fn char_is_whitespace(ch: char) -> (whitespace: bool)
    ensures
        whitespace == is_whitespace(ch),
{
    ch.is_whitespace()
}

/// Calls `char::is_uppercase` of the standard library, which tells whether a
/// char has the Unicode property `Uppercase`. The table of that property is
/// not written out here: the result is known as [`is_uppercase`].
#[verifier::external_body]
pub(crate) fn char_is_uppercase(ch: char) -> (uppercase: bool)
    ensures
        uppercase == is_uppercase(ch),
{
    ch.is_uppercase()
}

/// Whether `ch` is one of the letters `A` to `Z`.
pub open spec fn spec_is_ascii_uppercase(ch: char) -> bool {
    'A' <= ch <= 'Z'
}

/// Whether `ch` is one of the letters `a` to `z`.
pub open spec fn spec_is_ascii_lowercase(ch: char) -> bool {
    'a' <= ch <= 'z'
}

/// Whether `ch` is one of the letters `a` to `z` or `A` to `Z`.
pub open spec fn spec_is_ascii_alphabetic(ch: char) -> bool {
    spec_is_ascii_uppercase(ch) || spec_is_ascii_lowercase(ch)
}

/// The upper case of an ASCII letter; any other char is kept.
pub open spec fn spec_to_ascii_uppercase(ch: char) -> char {
    if spec_is_ascii_lowercase(ch) {
        ((ch as u8) - 32) as char
    } else {
        ch
    }
}

/// Whether `ch` may stand in an identifier: an ASCII letter, an ASCII digit
/// or an underscore.
pub open spec fn spec_is_ident_char(ch: char) -> bool {
    '0' <= ch <= '9' || spec_is_ascii_alphabetic(ch) || ch == '_'
}

/// Whether exactly one of the two chars may stand in an identifier.
pub open spec fn spec_xor_ident_char(first: char, second: char) -> bool {
    spec_is_ident_char(first) != spec_is_ident_char(second)
}

/// Returns `true` iff `ch` is one of the letters `A` to `Z`.
#[verifier::when_used_as_spec(spec_is_ascii_uppercase)]
pub fn is_ascii_uppercase(ch: char) -> (upper: bool)
    ensures
        upper == spec_is_ascii_uppercase(ch),
{
    'A' <= ch && ch <= 'Z'
}

/// Returns `true` iff `ch` is an ASCII letter.
#[verifier::when_used_as_spec(spec_is_ascii_alphabetic)]
pub fn is_ascii_alphabetic(ch: char) -> (letter: bool)
    ensures
        letter == spec_is_ascii_alphabetic(ch),
{
    ('A' <= ch && ch <= 'Z') || ('a' <= ch && ch <= 'z')
}

/// Returns the upper case of an ASCII letter, and any other char unchanged.
#[verifier::when_used_as_spec(spec_to_ascii_uppercase)]
pub fn to_ascii_uppercase(ch: char) -> (upper: char)
    ensures
        upper == spec_to_ascii_uppercase(ch),
{
    if 'a' <= ch && ch <= 'z' {
        let byte: u8 = ch as u8;
        (byte - 32) as char
    } else {
        ch
    }
}

/// Returns `true` if the given char is valid for an identifier.
#[verifier::when_used_as_spec(spec_is_ident_char)]
pub fn is_ident_char(ch: char) -> (ident: bool)
    ensures
        ident == spec_is_ident_char(ch),
{
    ('0' <= ch && ch <= '9') || is_ascii_alphabetic(ch) || ch == '_'
}

/// Checks that first or second is ident valid, but not both.
#[verifier::when_used_as_spec(spec_xor_ident_char)]
pub fn xor_ident_char(first: char, second: char) -> (differ: bool)
    ensures
        differ == spec_xor_ident_char(first, second),
{
    is_ident_char(first) != is_ident_char(second)
}

} // verus!
