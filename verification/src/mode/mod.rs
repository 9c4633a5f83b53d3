//! The editing modes and the key bindings of each: from a key event to the
//! actions that it stands for.

pub mod actions;
pub mod insert;
pub mod normal;

use vstd::prelude::*;

use crate::chars::{is_ascii_uppercase, to_ascii_uppercase};
use crate::event::{KeyCode, KeyEvent, KeyModifiers};
use crate::keymaps::{Action, GoToAction, OPending};
use crate::mode::insert::Insert;
use crate::mode::normal::Normal;
use crate::mode::actions::{Actions, ActionsView};

verus! {

/// Represents the vim mode of the buffer.
#[derive(Clone, Copy, Debug, PartialEq, Eq)]
pub enum Mode {
    /// Insert mode, to type in content. `<Esc>` leaves it.
    Insert,
    /// Normal mode, to move and edit with vim motions.
    Normal,
}

impl Default for Mode {
    /// The mode of a new buffer.
    fn default() -> (mode: Self)
        ensures
            mode == Mode::Normal,
    {
        Mode::Normal
    }
}

/// The event with its shift modifier and the case of its char made to agree:
/// a capital ASCII letter gets the shift modifier, and with the shift
/// modifier any other char is put in upper case.
pub open spec fn spec_fix_shift_modifier(event: KeyEvent) -> KeyEvent {
    match event.code {
        KeyCode::Char(ch) => if is_ascii_uppercase(ch) {
            KeyEvent { modifiers: event.modifiers.union(KeyModifiers::shift()), ..event }
        } else if event.modifiers.shift {
            KeyEvent { code: KeyCode::Char(to_ascii_uppercase(ch)), ..event }
        } else {
            event
        },
        _ => event,
    }
}

/// Adds the shift modifier if the event is a capital char, and capitalises
/// the char if the modifiers contain shift.
pub fn fix_shift_modifier(key_event: &mut KeyEvent)
    ensures
        *final(key_event) == spec_fix_shift_modifier(*old(key_event)),
{
    if let KeyCode::Char(ch) = key_event.code {
        if is_ascii_uppercase(ch) {
            key_event.modifiers = key_event.modifiers.union(KeyModifiers::shift());
        } else if key_event.modifiers.contains(KeyModifiers::shift()) {
            key_event.code = KeyCode::Char(to_ascii_uppercase(ch));
        }
    }
}

impl Mode {
    /// What a key stands for when no modifier is held: the arrow keys move
    /// the cursor in every mode, the other keys go by the mode.
    pub open spec fn blank_bindings(self, code: KeyCode) -> ActionsView {
        match code {
            KeyCode::Left => ActionsView::one(Action::GoTo(GoToAction::Left)),
            KeyCode::Right => ActionsView::one(Action::GoTo(GoToAction::Right)),
            _ => match self {
                Mode::Insert => Insert::blank_bindings(code),
                Mode::Normal => Normal::blank_bindings(code),
            },
        }
    }

    /// What a key stands for when shift alone is held.
    pub open spec fn shift_bindings(self, code: KeyCode) -> ActionsView {
        match self {
            Mode::Insert => Insert::shift_bindings(code),
            Mode::Normal => Normal::shift_bindings(code),
        }
    }

    /// What an event stands for when no command is pending. Only presses
    /// count. Once shift and case agree, a key with no modifier goes by the
    /// blank bindings, a key with shift alone by the shift bindings, and a key
    /// with any other modifiers stands for nothing.
    pub open spec fn spec_handle_non_opending_event(self, event: KeyEvent) -> ActionsView {
        let fixed = spec_fix_shift_modifier(event);
        if !event.is_press {
            ActionsView::nothing()
        } else if fixed.modifiers == KeyModifiers::none() {
            self.blank_bindings(fixed.code)
        } else if fixed.modifiers == KeyModifiers::shift() {
            self.shift_bindings(fixed.code)
        } else {
            ActionsView::nothing()
        }
    }

    /// The actions that complete the pending command `opending` with the char
    /// `ch`.
    pub open spec fn completed(opending: OPending, ch: char) -> Seq<Action> {
        match opending {
            OPending::FindNext => seq![Action::GoTo(GoToAction::NextOccurrenceOf(ch))],
            OPending::FindNextDecrement => seq![
                Action::GoTo(GoToAction::NextOccurrenceOf(ch)),
                Action::GoTo(GoToAction::Left),
            ],
            OPending::FindPrevious => seq![Action::GoTo(GoToAction::PreviousOccurrenceOf(ch))],
            OPending::FindPreviousIncrement => seq![
                Action::GoTo(GoToAction::PreviousOccurrenceOf(ch)),
                Action::GoTo(GoToAction::Right),
            ],
            OPending::ReplaceOne => seq![Action::ReplaceWith(ch)],
        }
    }

    /// What an event stands for while the command `opending` is pending: the
    /// press of a char key completes the command with that char, whatever
    /// modifiers are held; any other event stands for nothing.
    pub open spec fn spec_handle_opending_event(opending: OPending, event: KeyEvent) -> Seq<
        Action,
    > {
        match event.code {
            KeyCode::Char(ch) if event.is_press => Self::completed(opending, ch),
            _ => Seq::empty(),
        }
    }

    /// The actions that an event stands for, and the command that is pending
    /// afterwards. A pending command is used up by the event, whatever it is.
    /// With none pending, the event goes by the bindings, and a key that
    /// starts a two-key command stands for no action and leaves that command
    /// pending.
    pub open spec fn spec_handle_event(self, event: KeyEvent, pending: Option<OPending>) -> (
        Seq<Action>,
        Option<OPending>,
    ) {
        match pending {
            Some(opending) => (Self::spec_handle_opending_event(opending, event), None),
            None => match self.spec_handle_non_opending_event(event) {
                ActionsView::List(actions) => (actions, None),
                ActionsView::OPending(opending) => (Seq::empty(), Some(opending)),
            },
        }
    }

    /// Handles a keypress with no modifiers.
    pub fn handle_blank_key_press(&self, code: KeyCode) -> (actions: Actions)
        ensures
            actions@ == self.blank_bindings(code),
    {
        match code {
            KeyCode::Left => Actions::one(Action::GoTo(GoToAction::Left)),
            KeyCode::Right => Actions::one(Action::GoTo(GoToAction::Right)),
            _ => match self {
                Mode::Insert => Insert.handle_blank_key_press(code),
                Mode::Normal => Normal.handle_blank_key_press(code),
            },
        }
    }

    /// Handles a keypress with the shift modifier alone.
    pub fn handle_shift_key_press(&self, code: KeyCode) -> (actions: Actions)
        ensures
            actions@ == self.shift_bindings(code),
    {
        match self {
            Mode::Insert => Insert.handle_shift_key_press(code),
            Mode::Normal => Normal.handle_shift_key_press(code),
        }
    }

    /// Handles an event when no command is pending.
    pub fn handle_non_opending_event(self, event: &KeyEvent) -> (actions: Actions)
        ensures
            actions@ == self.spec_handle_non_opending_event(*event),
    {
        if !event.is_press {
            return Actions::nothing();
        }
        let mut key_event = *event;
        fix_shift_modifier(&mut key_event);
        if key_event.modifiers.same_as(KeyModifiers::none()) {
            self.handle_blank_key_press(key_event.code)
        } else if key_event.modifiers.same_as(KeyModifiers::shift()) {
            self.handle_shift_key_press(key_event.code)
        } else {
            Actions::nothing()
        }
    }

    /// Handles an event when a command is pending and waits for a key.
    pub fn handle_opending_event(opending: OPending, event: &KeyEvent) -> (actions: Vec<Action>)
        ensures
            actions@ == Self::spec_handle_opending_event(opending, *event),
    {
        let mut actions = Vec::new();
        if event.is_press {
            if let KeyCode::Char(ch) = event.code {
                match opending {
                    OPending::FindNext => {
                        actions.push(Action::GoTo(GoToAction::NextOccurrenceOf(ch)));
                    },
                    OPending::FindNextDecrement => {
                        actions.push(Action::GoTo(GoToAction::NextOccurrenceOf(ch)));
                        actions.push(Action::GoTo(GoToAction::Left));
                    },
                    OPending::FindPrevious => {
                        actions.push(Action::GoTo(GoToAction::PreviousOccurrenceOf(ch)));
                    },
                    OPending::FindPreviousIncrement => {
                        actions.push(Action::GoTo(GoToAction::PreviousOccurrenceOf(ch)));
                        actions.push(Action::GoTo(GoToAction::Right));
                    },
                    OPending::ReplaceOne => {
                        actions.push(Action::ReplaceWith(ch));
                    },
                }
            }
        }
        assert(actions@ =~= Self::spec_handle_opending_event(opending, *event));
        actions
    }

    /// Handles an incoming event of any kind: returns the actions that it
    /// stands for, and sets or clears the pending command.
    pub fn handle_event(self, event: &KeyEvent, pending: &mut Option<OPending>) -> (actions: Vec<
        Action,
    >)
        ensures
            (actions@, *final(pending)) == self.spec_handle_event(*event, *old(pending)),
    {
        let waiting = *pending;
        *pending = None;
        match waiting {
            Some(opending) => Self::handle_opending_event(opending, event),
            None => match self.handle_non_opending_event(event) {
                Actions::List(actions) => actions,
                Actions::OPending(opending) => {
                    *pending = Some(opending);
                    Vec::new()
                },
            },
        }
    }
}

} // verus!
