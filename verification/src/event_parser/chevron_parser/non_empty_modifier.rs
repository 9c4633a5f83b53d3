//! The modifiers read so far in a chevron group, of which the last letter
//! may turn out to be the key itself.

use vstd::prelude::*;

use crate::chars::{char_is_uppercase, is_uppercase, to_ascii_uppercase};
use crate::event::{KeyCode, KeyEvent, KeyModifiers};
use crate::event_parser::chevron_parser::char_modifier::ChevronModifier;

verus! {

/// Struct to represent a state where at least one key modifier has been found.
#[derive(Clone, Copy, Debug)]
pub struct NonEmptyModifiers {
    /// Last modifier to have been read.
    pub last_modifier: ChevronModifier,
    /// All read modifiers, except the last one.
    pub previous_modifiers: KeyModifiers,
}

impl NonEmptyModifiers {
    /// The press of the char `ch` with `modifiers`, once the case of the
    /// char and the shift modifier agree: with shift held, the char is put in
    /// upper case; without it, an upper case char adds shift.
    pub open spec fn spec_build_event_from_char_modifiers(
        ch: char,
        modifiers: KeyModifiers,
    ) -> KeyEvent {
        if modifiers.shift {
            KeyEvent::new(KeyCode::Char(to_ascii_uppercase(ch)), modifiers)
        } else if is_uppercase(ch) {
            KeyEvent::new(KeyCode::Char(ch), modifiers.union(KeyModifiers::shift()))
        } else {
            KeyEvent::new(KeyCode::Char(ch), modifiers)
        }
    }

    /// All the modifiers that were read, the last one included.
    pub open spec fn all(self) -> KeyModifiers {
        self.previous_modifiers.union(self.last_modifier.to_modifier())
    }

    /// The event of a group that ends on a modifier letter: that letter is
    /// the key, and the modifiers before it are held.
    pub open spec fn spec_build_event(self) -> KeyEvent {
        Self::spec_build_event_from_char_modifiers(
            self.last_modifier.to_char(),
            self.previous_modifiers,
        )
    }

    /// The event of a group that ends on the char `ch` after its modifiers:
    /// `ch` is the key, and all the modifiers are held.
    pub open spec fn spec_build_event_with_char(self, ch: char) -> KeyEvent {
        Self::spec_build_event_from_char_modifiers(ch, self.all())
    }

    /// The modifiers after the first letter `ch` of a group, if `ch` stands
    /// for a modifier.
    pub open spec fn spec_maybe_from(ch: char) -> Option<Self> {
        match ChevronModifier::maybe_from(ch) {
            Some(last_modifier) => Some(
                NonEmptyModifiers { last_modifier, previous_modifiers: KeyModifiers::none() },
            ),
            None => None,
        }
    }

    /// The modifiers after one more letter `ch`, if `ch` stands for a
    /// modifier.
    pub open spec fn spec_push_char(self, ch: char) -> Option<Self> {
        match ChevronModifier::maybe_from(ch) {
            Some(last_modifier) => Some(
                NonEmptyModifiers { last_modifier, previous_modifiers: self.all() },
            ),
            None => None,
        }
    }

    /// Builds a [`KeyEvent`] from a [`NonEmptyModifiers`] whose last modifier
    /// is the key.
    pub fn build_event(self) -> (event: KeyEvent)
        ensures
            event == self.spec_build_event(),
    {
        Self::build_event_from_char_modifiers(self.last_modifier.to_char(), self.previous_modifiers)
    }

    /// Builds a [`KeyEvent`] from a `char` and [`KeyModifiers`].
    pub fn build_event_from_char_modifiers(ch: char, modifiers: KeyModifiers) -> (event: KeyEvent)
        ensures
            event == Self::spec_build_event_from_char_modifiers(ch, modifiers),
    {
        if modifiers.contains(KeyModifiers::shift()) {
            KeyEvent::new(KeyCode::Char(to_ascii_uppercase(ch)), modifiers)
        } else if char_is_uppercase(ch) {
            KeyEvent::new(KeyCode::Char(ch), modifiers.union(KeyModifiers::shift()))
        } else {
            KeyEvent::new(KeyCode::Char(ch), modifiers)
        }
    }

    /// Builds a [`KeyEvent`] from a [`NonEmptyModifiers`] applied to a `char`.
    /// The last modifier joins the previous ones.
    pub fn build_event_with_char(&mut self, ch: char) -> (event: KeyEvent)
        ensures
            event == old(self).spec_build_event_with_char(ch),
            final(self).last_modifier == old(self).last_modifier,
            final(self).previous_modifiers == old(self).all(),
    {
        self.previous_modifiers = self.previous_modifiers.union(self.last_modifier.to_modifier());
        Self::build_event_from_char_modifiers(ch, self.previous_modifiers)
    }

    /// Creates a new [`NonEmptyModifiers`] from a `char`, if possible.
    pub fn maybe_from(ch: char) -> (modifiers: Option<Self>)
        ensures
            modifiers == Self::spec_maybe_from(ch),
    {
        match ChevronModifier::maybe_from(ch) {
            Some(last_modifier) => Some(
                NonEmptyModifiers { last_modifier, previous_modifiers: KeyModifiers::none() },
            ),
            None => None,
        }
    }

    /// Tries to push a char into a [`NonEmptyModifiers`].
    ///
    /// The push is successful iff the char represents a valid modifier.
    ///
    /// Returns `true` iff the push was successful.
    pub fn try_push_char(&mut self, ch: char) -> (pushed: bool)
        ensures
            pushed == old(self).spec_push_char(ch) is Some,
            *final(self) == match old(self).spec_push_char(ch) {
                Some(modifiers) => modifiers,
                None => *old(self),
            },
    {
        match ChevronModifier::maybe_from(ch) {
            Some(new_modifier) => {
                self.previous_modifiers = self.previous_modifiers.union(
                    self.last_modifier.to_modifier(),
                );
                self.last_modifier = new_modifier;
                true
            },
            None => false,
        }
    }
}

} // verus!
