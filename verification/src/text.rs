//! Editing a text by the index of a char rather than of a byte.

use vstd::prelude::*;
use vstd::string::{StrSliceExecFns, StringExecFns};

verus! {

/// Calls `String::push` of the standard library, which appends the given
/// char to the end of the string.
#[verifier::external_body]
fn push_char(text: &mut String, ch: char)
    ensures
        final(text)@ == old(text)@.push(ch),
{
    text.push(ch);
}

/// Returns the chars of `text`, in order.
pub fn to_chars(text: &str) -> (chars: Vec<char>)
    ensures
        chars@ == text@,
{
    let mut chars: Vec<char> = Vec::new();
    for ch in iter: text.chars()
        invariant
            iter.seq() == text@,
            chars@ == iter.seq().take(iter.index() as int),
    {
        chars.push(ch);
    }
    chars
}

/// Returns `text` with `ch` inserted before its char of index `at`, or at
/// its end where `at` is its length.
pub fn insert_char(text: &str, at: usize, ch: char) -> (edited: String)
    requires
        at <= text@.len(),
    ensures
        edited@ == text@.insert(at as int, ch),
{
    let len = text.unicode_len();
    let mut edited = String::from_str(text.substring_char(0, at));
    push_char(&mut edited, ch);
    edited.append(text.substring_char(at, len));
    assert(edited@ =~= text@.insert(at as int, ch));
    edited
}

/// Returns `text` without its char of index `at`.
pub fn remove_char(text: &str, at: usize) -> (edited: String)
    requires
        at < text@.len(),
    ensures
        edited@ == text@.remove(at as int),
{
    let len = text.unicode_len();
    let mut edited = String::from_str(text.substring_char(0, at));
    edited.append(text.substring_char(at + 1, len));
    assert(edited@ =~= text@.remove(at as int));
    edited
}

/// Returns `text` with `ch` in the place of its char of index `at`.
pub fn replace_char(text: &str, at: usize, ch: char) -> (edited: String)
    requires
        at < text@.len(),
    ensures
        edited@ == text@.update(at as int, ch),
{
    let len = text.unicode_len();
    let mut edited = String::from_str(text.substring_char(0, at));
    push_char(&mut edited, ch);
    edited.append(text.substring_char(at + 1, len));
    assert(edited@ =~= text@.update(at as int, ch));
    edited
}

} // verus!
