//! The chevron groups that name a key, like `<Esc>` and `<CR>`.

use vstd::prelude::*;

use crate::event::KeyCode;
use crate::text::to_chars;

verus! {

/// Bounds to store a maximum and minimum length.
#[derive(Clone, Copy, Debug)]
pub struct Bounds {
    /// Maximum possible length.
    pub max: usize,
    /// Minimum possible length.
    pub min: usize,
}

/// Length of the longest name of a key.
pub const MAX_LENGTH: usize = 8;

/// Length of the shortest name of a key.
pub const MIN_LENGTH: usize = 2;

/// The key that `name` names, if it names one. Names are case-sensitive.
pub open spec fn named_key(name: Seq<char>) -> Option<KeyCode> {
    if name == "BS"@ {
        Some(KeyCode::Backspace)
    } else if name == "Tab"@ {
        Some(KeyCode::Tab)
    } else if name == "CR"@ || name == "Return"@ || name == "Enter"@ {
        Some(KeyCode::Enter)
    } else if name == "Esc"@ {
        Some(KeyCode::Esc)
    } else if name == "Delete"@ {
        Some(KeyCode::Delete)
    } else if name == "Up"@ {
        Some(KeyCode::Up)
    } else if name == "Down"@ {
        Some(KeyCode::Down)
    } else if name == "Left"@ {
        Some(KeyCode::Left)
    } else if name == "Right"@ {
        Some(KeyCode::Right)
    } else if name == "Home"@ {
        Some(KeyCode::Home)
    } else if name == "End"@ {
        Some(KeyCode::End)
    } else if name == "PageUp"@ {
        Some(KeyCode::PageUp)
    } else if name == "PageDown"@ {
        Some(KeyCode::PageDown)
    } else {
        None
    }
}

/// The name of every key is at least [`MIN_LENGTH`] and at most
/// [`MAX_LENGTH`] chars long.
pub proof fn lemma_named_key_lengths(name: Seq<char>)
    requires
        named_key(name) is Some,
    ensures
        MIN_LENGTH <= name.len() <= MAX_LENGTH,
{
    reveal_strlit("BS");
    reveal_strlit("Tab");
    reveal_strlit("CR");
    reveal_strlit("Return");
    reveal_strlit("Enter");
    reveal_strlit("Esc");
    reveal_strlit("Delete");
    reveal_strlit("Up");
    reveal_strlit("Down");
    reveal_strlit("Left");
    reveal_strlit("Right");
    reveal_strlit("Home");
    reveal_strlit("End");
    reveal_strlit("PageUp");
    reveal_strlit("PageDown");
}

/// Returns the minimum and the maximum length of the name of a key.
pub fn lengths() -> (bounds: Bounds)
    ensures
        bounds.max == MAX_LENGTH,
        bounds.min == MIN_LENGTH,
{
    Bounds { max: MAX_LENGTH, min: MIN_LENGTH }
}

/// Returns `true` iff `name` holds the chars of `wanted`.
fn is_name(name: &Vec<char>, wanted: &str) -> (same: bool)
    ensures
        same == (name@ == wanted@),
{
    let chars = to_chars(wanted);
    if chars.len() != name.len() {
        return false;
    }
    let mut index: usize = 0;
    while index < name.len()
        invariant
            index <= name@.len(),
            chars@.len() == name@.len(),
            chars@ == wanted@,
            forall|i: int| 0 <= i < index ==> name@[i] == chars@[i],
        decreases name@.len() - index,
    {
        if name[index] != chars[index] {
            return false;
        }
        index = index + 1;
    }
    assert(name@ =~= wanted@);
    true
}

/// Converts the name of a key to its code.
pub fn build_named_key(name: &Vec<char>) -> (code: Option<KeyCode>)
    ensures
        code == named_key(name@),
{
    if is_name(name, "BS") {
        Some(KeyCode::Backspace)
    } else if is_name(name, "Tab") {
        Some(KeyCode::Tab)
    } else if is_name(name, "CR") || is_name(name, "Return") || is_name(name, "Enter") {
        Some(KeyCode::Enter)
    } else if is_name(name, "Esc") {
        Some(KeyCode::Esc)
    } else if is_name(name, "Delete") {
        Some(KeyCode::Delete)
    } else if is_name(name, "Up") {
        Some(KeyCode::Up)
    } else if is_name(name, "Down") {
        Some(KeyCode::Down)
    } else if is_name(name, "Left") {
        Some(KeyCode::Left)
    } else if is_name(name, "Right") {
        Some(KeyCode::Right)
    } else if is_name(name, "Home") {
        Some(KeyCode::Home)
    } else if is_name(name, "End") {
        Some(KeyCode::End)
    } else if is_name(name, "PageUp") {
        Some(KeyCode::PageUp)
    } else if is_name(name, "PageDown") {
        Some(KeyCode::PageDown)
    } else {
        None
    }
}

} // verus!
