//! The key bindings of normal mode.

use vstd::prelude::*;

use crate::event::KeyCode;
use crate::keymaps::{Action, GoToAction, OPending};
use crate::mode::actions::{Actions, ActionsView};
use crate::mode::Mode;

verus! {

/// Struct to handle keypresses in normal mode.
pub struct Normal;

impl Normal {
    /// What each key stands for in normal mode when no modifier is held.
    pub open spec fn blank_bindings(code: KeyCode) -> ActionsView {
        match code {
            KeyCode::Char('a') => ActionsView::two(
                Action::GoTo(GoToAction::Right),
                Action::SelectMode(Mode::Insert),
            ),
            KeyCode::Char('i') => ActionsView::one(Action::SelectMode(Mode::Insert)),
            KeyCode::Char('x') => ActionsView::one(Action::DeleteNextChar),
            KeyCode::Char('s') => ActionsView::three(
                Action::GoTo(GoToAction::Right),
                Action::DeletePreviousChar,
                Action::SelectMode(Mode::Insert),
            ),
            KeyCode::Backspace | KeyCode::Char('h') => ActionsView::one(
                Action::GoTo(GoToAction::Left),
            ),
            KeyCode::Char('l') => ActionsView::one(Action::GoTo(GoToAction::Right)),
            KeyCode::Char('f') => ActionsView::OPending(OPending::FindNext),
            KeyCode::Char('t') => ActionsView::OPending(OPending::FindNextDecrement),
            KeyCode::Char('r') => ActionsView::OPending(OPending::ReplaceOne),
            KeyCode::Char('0') => ActionsView::one(Action::GoTo(GoToAction::Bol)),
            KeyCode::Char('^') => ActionsView::one(Action::GoTo(GoToAction::FirstNonSpace)),
            KeyCode::Char('$') => ActionsView::one(Action::GoTo(GoToAction::Eol)),
            KeyCode::Char('w') => ActionsView::one(Action::GoTo(GoToAction::NextWord)),
            KeyCode::Char('b') => ActionsView::one(Action::GoTo(GoToAction::PreviousWord)),
            KeyCode::Char('u') => ActionsView::one(Action::Undo),
            _ => ActionsView::nothing(),
        }
    }

    /// What each key stands for in normal mode when shift alone is held.
    pub open spec fn shift_bindings(code: KeyCode) -> ActionsView {
        match code {
            KeyCode::Char('I') => ActionsView::two(
                Action::GoTo(GoToAction::FirstNonSpace),
                Action::SelectMode(Mode::Insert),
            ),
            KeyCode::Char('A') => ActionsView::two(
                Action::GoTo(GoToAction::Eol),
                Action::SelectMode(Mode::Insert),
            ),
            KeyCode::Char('X') => ActionsView::one(Action::DeletePreviousChar),
            KeyCode::Char('S') => ActionsView::two(
                Action::DeleteLine,
                Action::SelectMode(Mode::Insert),
            ),
            KeyCode::Char('F') => ActionsView::OPending(OPending::FindPrevious),
            KeyCode::Char('T') => ActionsView::OPending(OPending::FindPreviousIncrement),
            KeyCode::Char('W') => ActionsView::one(Action::GoTo(GoToAction::NextWORD)),
            KeyCode::Char('B') => ActionsView::one(Action::GoTo(GoToAction::PreviousWORD)),
            _ => ActionsView::nothing(),
        }
    }

    /// Handles a keypress with no modifiers.
    pub fn handle_blank_key_press(&self, code: KeyCode) -> (actions: Actions)
        ensures
            actions@ == Self::blank_bindings(code),
    {
        match code {
            KeyCode::Char('a') => Actions::two(
                Action::GoTo(GoToAction::Right),
                Action::SelectMode(Mode::Insert),
            ),
            KeyCode::Char('i') => Actions::one(Action::SelectMode(Mode::Insert)),
            KeyCode::Char('x') => Actions::one(Action::DeleteNextChar),
            KeyCode::Char('s') => Actions::three(
                Action::GoTo(GoToAction::Right),
                Action::DeletePreviousChar,
                Action::SelectMode(Mode::Insert),
            ),
            KeyCode::Backspace | KeyCode::Char('h') => Actions::one(
                Action::GoTo(GoToAction::Left),
            ),
            KeyCode::Char('l') => Actions::one(Action::GoTo(GoToAction::Right)),
            KeyCode::Char('f') => Actions::OPending(OPending::FindNext),
            KeyCode::Char('t') => Actions::OPending(OPending::FindNextDecrement),
            KeyCode::Char('r') => Actions::OPending(OPending::ReplaceOne),
            KeyCode::Char('0') => Actions::one(Action::GoTo(GoToAction::Bol)),
            KeyCode::Char('^') => Actions::one(Action::GoTo(GoToAction::FirstNonSpace)),
            KeyCode::Char('$') => Actions::one(Action::GoTo(GoToAction::Eol)),
            KeyCode::Char('w') => Actions::one(Action::GoTo(GoToAction::NextWord)),
            KeyCode::Char('b') => Actions::one(Action::GoTo(GoToAction::PreviousWord)),
            KeyCode::Char('u') => Actions::one(Action::Undo),
            _ => Actions::nothing(),
        }
    }

    /// Handles a keypress with the shift modifier alone.
    pub fn handle_shift_key_press(&self, code: KeyCode) -> (actions: Actions)
        ensures
            actions@ == Self::shift_bindings(code),
    {
        match code {
            KeyCode::Char('I') => Actions::two(
                Action::GoTo(GoToAction::FirstNonSpace),
                Action::SelectMode(Mode::Insert),
            ),
            KeyCode::Char('A') => Actions::two(
                Action::GoTo(GoToAction::Eol),
                Action::SelectMode(Mode::Insert),
            ),
            KeyCode::Char('X') => Actions::one(Action::DeletePreviousChar),
            KeyCode::Char('S') => Actions::two(
                Action::DeleteLine,
                Action::SelectMode(Mode::Insert),
            ),
            KeyCode::Char('F') => Actions::OPending(OPending::FindPrevious),
            KeyCode::Char('T') => Actions::OPending(OPending::FindPreviousIncrement),
            KeyCode::Char('W') => Actions::one(Action::GoTo(GoToAction::NextWORD)),
            KeyCode::Char('B') => Actions::one(Action::GoTo(GoToAction::PreviousWORD)),
            _ => Actions::nothing(),
        }
    }
}

} // verus!
