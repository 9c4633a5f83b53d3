//! The parts of a keymap string that stand between `<` and `>`.

pub mod char_modifier;
pub mod modified_key;
pub mod named_key;
pub mod non_empty_modifier;

use vstd::prelude::*;

use crate::chars::is_ascii_alphabetic;
use crate::event::{KeyEvent, KeyModifiers};
use crate::event_parser::chevron_parser::modified_key::{ModifiedKeyError, ModifiedKeyParsingState};
use crate::event_parser::chevron_parser::named_key::{
    build_named_key,
    lengths,
    named_key,
    MAX_LENGTH,
};

verus! {

/// Errors that may occur while parsing a chevron group.
#[derive(Clone, Copy, Debug, PartialEq, Eq)]
pub enum ChevronGroupError {
    /// Expected to find a letter at the beginning of the group.
    ExpectedLetter {
        /// Found this instead.
        got: char,
    },
    /// The group names no key: its name is unknown or too long, or one of
    /// its chars does not fit in a byte.
    InvalidNamedKey,
    /// Error for a modified key.
    ModifiedKey(ModifiedKeyError),
    /// The group consists of a single char.
    SingleCharGroup,
}

/// Parsing state to parse a chevron group.
#[derive(Debug)]
pub enum ChevronGroupParsingState {
    /// Key that has modifiers.
    ModifiedKey(ModifiedKeyParsingState),
    /// Named key, like `<CR>` or `<Tab>`: the chars of the name read so far.
    NamedKey(Vec<char>),
    /// Read only `<`.
    Opened,
    /// Read one char. It takes two chars to decide the kind of the group.
    Unknown(char),
}

/// What a [`ChevronGroupParsingState`] holds, as mathematical values.
pub enum ChevronGroupParsingStateView {
    /// Key that has modifiers.
    ModifiedKey(ModifiedKeyParsingState),
    /// Named key: the chars of the name read so far.
    NamedKey(Seq<char>),
    /// Read only `<`.
    Opened,
    /// Read one char.
    Unknown(char),
}

impl View for ChevronGroupParsingState {
    type V = ChevronGroupParsingStateView;

    open spec fn view(&self) -> ChevronGroupParsingStateView {
        match self {
            ChevronGroupParsingState::ModifiedKey(state) => {
                ChevronGroupParsingStateView::ModifiedKey(*state)
            },
            ChevronGroupParsingState::NamedKey(name) => ChevronGroupParsingStateView::NamedKey(
                name@,
            ),
            ChevronGroupParsingState::Opened => ChevronGroupParsingStateView::Opened,
            ChevronGroupParsingState::Unknown(ch) => ChevronGroupParsingStateView::Unknown(*ch),
        }
    }
}

/// Whether the char fits in one byte, as every char of the name of a key has
/// to.
pub open spec fn fits_in_byte(ch: char) -> bool {
    ch <= '\u{ff}'
}

impl ChevronGroupParsingStateView {
    /// The state of a group that starts with the chars `previous` and `next`
    /// and so has to be the name of a key. Both chars have to fit in a byte.
    pub open spec fn named_key_from(previous: char, next: char) -> Result<
        Self,
        ChevronGroupError,
    > {
        if fits_in_byte(previous) && fits_in_byte(next) {
            Ok(ChevronGroupParsingStateView::NamedKey(seq![previous, next]))
        } else {
            Err(ChevronGroupError::InvalidNamedKey)
        }
    }

    /// What the char `ch` does in this state: the state after it, with the
    /// event that the group stands for where `ch` closes the group; or the
    /// error where `ch` cannot follow.
    ///
    /// A group starts with an ASCII letter. Its second char decides: a hyphen
    /// makes it a modified key, whose first letter has to stand for a
    /// modifier; `>` is an error, as no group has one char; any other char
    /// makes it the name of a key. A name grows up to the longest name of a
    /// key, by chars that fit in a byte, and `>` looks it up.
    pub open spec fn step(self, ch: char) -> Result<(Self, Option<KeyEvent>), ChevronGroupError> {
        match self {
            ChevronGroupParsingStateView::Opened => if is_ascii_alphabetic(ch) {
                Ok((ChevronGroupParsingStateView::Unknown(ch), None))
            } else {
                Err(ChevronGroupError::ExpectedLetter { got: ch })
            },
            ChevronGroupParsingStateView::Unknown(previous) => if ch == '-' {
                match ModifiedKeyParsingState::spec_try_from_prehyphen_char(previous) {
                    Ok(state) => Ok((ChevronGroupParsingStateView::ModifiedKey(state), None)),
                    Err(error) => Err(ChevronGroupError::ModifiedKey(error)),
                }
            } else if ch == '>' {
                Err(ChevronGroupError::SingleCharGroup)
            } else {
                match Self::named_key_from(previous, ch) {
                    Ok(state) => Ok((state, None)),
                    Err(error) => Err(error),
                }
            },
            ChevronGroupParsingStateView::ModifiedKey(modified_key) => match modified_key.step(
                ch,
            ) {
                Ok((state, event)) => Ok((ChevronGroupParsingStateView::ModifiedKey(state), event)),
                Err(error) => Err(ChevronGroupError::ModifiedKey(error)),
            },
            ChevronGroupParsingStateView::NamedKey(name) => if ch == '>' {
                match named_key(name) {
                    Some(code) => Ok((self, Some(KeyEvent::new(code, KeyModifiers::none())))),
                    None => Err(ChevronGroupError::InvalidNamedKey),
                }
            } else if name.len() < MAX_LENGTH && fits_in_byte(ch) {
                Ok((ChevronGroupParsingStateView::NamedKey(name.push(ch)), None))
            } else {
                Err(ChevronGroupError::InvalidNamedKey)
            },
        }
    }
}

impl ChevronGroupParsingState {
    /// The group is now certain to be the name of a key, which starts with
    /// `previous` and `next`.
    pub fn evolve_to_named_key(&mut self, previous: char, next: char) -> (evolved: Result<
        (),
        ChevronGroupError,
    >)
        ensures
            match ChevronGroupParsingStateView::named_key_from(previous, next) {
                Ok(state) => evolved is Ok && final(self)@ == state,
                Err(error) => evolved == Err::<(), _>(error) && final(self)@ == old(self)@,
            },
    {
        if previous <= '\u{ff}' && next <= '\u{ff}' {
            let mut name = Vec::new();
            name.push(previous);
            name.push(next);
            assert(name@ =~= seq![previous, next]);
            *self = ChevronGroupParsingState::NamedKey(name);
            Ok(())
        } else {
            Err(ChevronGroupError::InvalidNamedKey)
        }
    }

    /// Parses one more char of the group. Returns the event of the group
    /// where the char closes it. The state is left as it is where an event or
    /// an error is returned.
    pub fn parse_char(&mut self, ch: char) -> (parsed: Result<Option<KeyEvent>, ChevronGroupError>)
        ensures
            match old(self)@.step(ch) {
                Ok((state, event)) => parsed == Ok::<_, ChevronGroupError>(event) && final(self)@
                    == state,
                Err(error) => parsed == Err::<Option<KeyEvent>, _>(error) && final(self)@ == old(
                    self,
                )@,
            },
    {
        match self {
            ChevronGroupParsingState::Opened => {
                if is_ascii_alphabetic(ch) {
                    *self = ChevronGroupParsingState::Unknown(ch);
                    Ok(None)
                } else {
                    Err(ChevronGroupError::ExpectedLetter { got: ch })
                }
            },
            ChevronGroupParsingState::Unknown(previous) => {
                let previous = *previous;
                if ch == '-' {
                    match ModifiedKeyParsingState::try_from_prehyphen_char(previous) {
                        Ok(state) => {
                            *self = ChevronGroupParsingState::ModifiedKey(state);
                            Ok(None)
                        },
                        Err(error) => Err(ChevronGroupError::ModifiedKey(error)),
                    }
                } else if ch == '>' {
                    Err(ChevronGroupError::SingleCharGroup)
                } else {
                    match self.evolve_to_named_key(previous, ch) {
                        Ok(()) => Ok(None),
                        Err(error) => Err(error),
                    }
                }
            },
            ChevronGroupParsingState::ModifiedKey(modified_key) => {
                match modified_key.parse_char(ch) {
                    Ok(event) => Ok(event),
                    Err(error) => Err(ChevronGroupError::ModifiedKey(error)),
                }
            },
            ChevronGroupParsingState::NamedKey(name) => {
                if ch == '>' {
                    match build_named_key(name) {
                        Some(code) => Ok(Some(KeyEvent::new(code, KeyModifiers::none()))),
                        None => Err(ChevronGroupError::InvalidNamedKey),
                    }
                } else if name.len() < lengths().max && ch <= '\u{ff}' {
                    name.push(ch);
                    Ok(None)
                } else {
                    Err(ChevronGroupError::InvalidNamedKey)
                }
            },
        }
    }
}

/// Parses one chevron group.
///
/// Chevron groups are used to denote named keys and keys with modifiers.
#[derive(Debug)]
pub struct ChevronGroupParser(pub ChevronGroupParsingState);

impl View for ChevronGroupParser {
    type V = ChevronGroupParsingStateView;

    open spec fn view(&self) -> ChevronGroupParsingStateView {
        self.0@
    }
}

impl ChevronGroupParser {
    /// Returns a [`ChevronGroupParser`] for a new chevron group.
    pub fn new() -> (parser: Self)
        ensures
            parser@ == ChevronGroupParsingStateView::Opened,
    {
        ChevronGroupParser(ChevronGroupParsingState::Opened)
    }

    /// Parses one more char of the group. Returns the event of the group
    /// where the char closes it. The parser is left as it is where an event or
    /// an error is returned.
    pub fn parse_char(&mut self, ch: char) -> (parsed: Result<Option<KeyEvent>, ChevronGroupError>)
        ensures
            match old(self)@.step(ch) {
                Ok((state, event)) => parsed == Ok::<_, ChevronGroupError>(event) && final(self)@
                    == state,
                Err(error) => parsed == Err::<Option<KeyEvent>, _>(error) && final(self)@ == old(
                    self,
                )@,
            },
    {
        self.0.parse_char(ch)
    }
}

} // verus!
