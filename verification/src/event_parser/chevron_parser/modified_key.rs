//! The chevron groups that name a key with its modifiers, like `<C-S-a>`.

use vstd::prelude::*;

use crate::event::KeyEvent;
use crate::event_parser::chevron_parser::non_empty_modifier::NonEmptyModifiers;

verus! {

/// Parsing state to parse a chevron group for a modified key.
#[derive(Clone, Copy, Debug)]
pub enum ModifiedKeyParsingState {
    /// A non-modifier char has just been read.
    ReadChar(NonEmptyModifiers, char),
    /// A hyphen has just been read.
    ReadHyphen(NonEmptyModifiers),
    /// A modifier has just been read.
    ReadLetter(NonEmptyModifiers),
}

/// Errors that may occur whilst parsing a chevron group of a modified key.
#[derive(Clone, Copy, Debug, PartialEq, Eq)]
pub enum ModifiedKeyError {
    /// Invalid character in the current context: expected a `>`.
    ExpectedChevron {
        /// But got this character.
        got: char,
    },
    /// Invalid character in the current context: expected a `>` or a `-`.
    ExpectedChevronOrHyphen {
        /// But got this character.
        got: char,
    },
    /// The letter before the first hyphen stands for no modifier.
    InvalidModifier(char),
    /// The chevron group is missing a char after a hyphen.
    MissingChar,
}

impl ModifiedKeyParsingState {
    /// The state after the first hyphen of a group, whose only char before
    /// the hyphen was `ch`: `ch` has to stand for a modifier.
    pub open spec fn spec_try_from_prehyphen_char(ch: char) -> Result<Self, ModifiedKeyError> {
        match NonEmptyModifiers::spec_maybe_from(ch) {
            Some(modifiers) => Ok(ModifiedKeyParsingState::ReadHyphen(modifiers)),
            None => Err(ModifiedKeyError::InvalidModifier(ch)),
        }
    }

    /// What the char `ch` does in this state: the state after it, with the
    /// event that the group stands for where `ch` closes the group; or the
    /// error where `ch` cannot follow.
    ///
    /// After a hyphen comes a letter that stands for a modifier, or the char
    /// of the key. After a modifier letter comes a hyphen, or the end of the
    /// group, and then that letter is the key. After the char of the key comes
    /// the end of the group.
    pub open spec fn step(self, ch: char) -> Result<(Self, Option<KeyEvent>), ModifiedKeyError> {
        match self {
            ModifiedKeyParsingState::ReadChar(modifiers, last_char) => if ch == '>' {
                Ok((self, Some(modifiers.spec_build_event_with_char(last_char))))
            } else {
                Err(ModifiedKeyError::ExpectedChevron { got: ch })
            },
            ModifiedKeyParsingState::ReadLetter(modifiers) => if ch == '>' {
                Ok((self, Some(modifiers.spec_build_event())))
            } else if ch == '-' {
                Ok((ModifiedKeyParsingState::ReadHyphen(modifiers), None))
            } else {
                Err(ModifiedKeyError::ExpectedChevronOrHyphen { got: ch })
            },
            ModifiedKeyParsingState::ReadHyphen(modifiers) => if ch == '>' || ch == '-' {
                Err(ModifiedKeyError::MissingChar)
            } else {
                match modifiers.spec_push_char(ch) {
                    Some(pushed) => Ok((ModifiedKeyParsingState::ReadLetter(pushed), None)),
                    None => Ok((ModifiedKeyParsingState::ReadChar(modifiers, ch), None)),
                }
            },
        }
    }

    /// Initialises a [`ModifiedKeyParsingState`] from a char that is found
    /// before a hyphen.
    pub fn try_from_prehyphen_char(ch: char) -> (state: Result<Self, ModifiedKeyError>)
        ensures
            state == Self::spec_try_from_prehyphen_char(ch),
    {
        match NonEmptyModifiers::maybe_from(ch) {
            Some(modifiers) => Ok(ModifiedKeyParsingState::ReadHyphen(modifiers)),
            None => Err(ModifiedKeyError::InvalidModifier(ch)),
        }
    }

    /// Parses one more char of the group. Returns the event of the group
    /// where the char closes it. The state is left as it is where an event or
    /// an error is returned.
    pub fn parse_char(&mut self, ch: char) -> (parsed: Result<Option<KeyEvent>, ModifiedKeyError>)
        ensures
            match old(self).step(ch) {
                Ok((state, event)) => parsed == Ok::<_, ModifiedKeyError>(event) && *final(self)
                    == state,
                Err(error) => parsed == Err::<Option<KeyEvent>, _>(error) && *final(self) == *old(
                    self,
                ),
            },
    {
        match *self {
            ModifiedKeyParsingState::ReadChar(modifiers, last_char) => {
                if ch == '>' {
                    let mut all = modifiers;
                    Ok(Some(all.build_event_with_char(last_char)))
                } else {
                    Err(ModifiedKeyError::ExpectedChevron { got: ch })
                }
            },
            ModifiedKeyParsingState::ReadLetter(modifiers) => {
                if ch == '>' {
                    Ok(Some(modifiers.build_event()))
                } else if ch == '-' {
                    *self = ModifiedKeyParsingState::ReadHyphen(modifiers);
                    Ok(None)
                } else {
                    Err(ModifiedKeyError::ExpectedChevronOrHyphen { got: ch })
                }
            },
            ModifiedKeyParsingState::ReadHyphen(modifiers) => {
                if ch == '>' || ch == '-' {
                    Err(ModifiedKeyError::MissingChar)
                } else {
                    let mut pushed = modifiers;
                    if pushed.try_push_char(ch) {
                        *self = ModifiedKeyParsingState::ReadLetter(pushed);
                    } else {
                        *self = ModifiedKeyParsingState::ReadChar(modifiers, ch);
                    }
                    Ok(None)
                }
            },
        }
    }
}

} // verus!
