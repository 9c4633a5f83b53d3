//! The actions that key presses stand for.

use vstd::prelude::*;

use crate::mode::Mode;

verus! {

/// Action to be done on the buffer.
#[derive(Clone, Copy, Debug, PartialEq, Eq)]
pub enum Action {
    /// Deletes the whole line.
    DeleteLine,
    /// Deletes the char under the cursor.
    DeleteNextChar,
    /// Deletes the char before the cursor.
    DeletePreviousChar,
    /// Moves the cursor to a location.
    GoTo(GoToAction),
    /// Inserts a char at the cursor.
    InsertChar(char),
    /// Replaces the char under the cursor with the given one.
    ReplaceWith(char),
    /// Switches to a new mode.
    SelectMode(Mode),
    /// Undoes the last edition.
    Undo,
    /// Redoes the last edition that was undone.
    Redo,
}

/// Actions to move the cursor.
#[derive(Clone, Copy, Debug, PartialEq, Eq)]
pub enum GoToAction {
    /// Beginning of line (column 0), reached with `0`.
    Bol,
    /// End of line, like with `$` and `A`.
    Eol,
    /// First non space character, like with `I` and `^`.
    FirstNonSpace,
    /// Move the cursor left by one character.
    Left,
    /// Find the next occurrence of the char and place the cursor on it.
    NextOccurrenceOf(char),
    /// Move to the beginning of the next WORD.
    NextWORD,
    /// Move to the beginning of the next word.
    NextWord,
    /// Find the previous occurrence of the char and place the cursor on it.
    PreviousOccurrenceOf(char),
    /// Move to the beginning of the previous WORD.
    PreviousWORD,
    /// Move to the beginning of the previous word.
    PreviousWord,
    /// Move the cursor right by one character.
    Right,
}

/// Command that waits for one more key press.
#[derive(Clone, Copy, Debug, PartialEq, Eq)]
pub enum OPending {
    /// Find the next char that is equal to the one that comes.
    FindNext,
    /// Find the next char that is equal to the one that comes, and step back.
    FindNextDecrement,
    /// Find the previous char that is equal to the one that comes.
    FindPrevious,
    /// Find the previous char that is equal to the one that comes, and step
    /// forward.
    FindPreviousIncrement,
    /// Replace one character by the one that comes.
    ReplaceOne,
}

} // verus!
