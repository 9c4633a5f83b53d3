//! The key bindings of insert mode.

use vstd::prelude::*;

use crate::chars::to_ascii_uppercase;
use crate::event::KeyCode;
use crate::keymaps::{Action, GoToAction};
use crate::mode::actions::{Actions, ActionsView};
use crate::mode::Mode;

verus! {

/// Struct to handle keypresses in insert mode.
pub struct Insert;

impl Insert {
    /// What each key stands for in insert mode when no modifier is held.
    pub open spec fn blank_bindings(code: KeyCode) -> ActionsView {
        match code {
            KeyCode::Esc => ActionsView::two(
                Action::GoTo(GoToAction::Left),
                Action::SelectMode(Mode::Normal),
            ),
            KeyCode::Char(ch) => ActionsView::one(Action::InsertChar(ch)),
            KeyCode::Backspace => ActionsView::one(Action::DeletePreviousChar),
            _ => ActionsView::nothing(),
        }
    }

    /// What each key stands for in insert mode when shift alone is held.
    pub open spec fn shift_bindings(code: KeyCode) -> ActionsView {
        match code {
            KeyCode::Char(ch) => ActionsView::one(Action::InsertChar(to_ascii_uppercase(ch))),
            _ => ActionsView::nothing(),
        }
    }

    /// Handles a keypress with no modifiers.
    pub fn handle_blank_key_press(&self, code: KeyCode) -> (actions: Actions)
        ensures
            actions@ == Self::blank_bindings(code),
    {
        match code {
            KeyCode::Esc => Actions::two(
                Action::GoTo(GoToAction::Left),
                Action::SelectMode(Mode::Normal),
            ),
            KeyCode::Char(ch) => Actions::one(Action::InsertChar(ch)),
            KeyCode::Backspace => Actions::one(Action::DeletePreviousChar),
            _ => Actions::nothing(),
        }
    }

    /// Handles a keypress with the shift modifier alone.
    pub fn handle_shift_key_press(&self, code: KeyCode) -> (actions: Actions)
        ensures
            actions@ == Self::shift_bindings(code),
    {
        match code {
            KeyCode::Char(ch) => Actions::one(Action::InsertChar(to_ascii_uppercase(ch))),
            _ => Actions::nothing(),
        }
    }
}

} // verus!
