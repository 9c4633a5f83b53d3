//! The parser outside the chevron groups.

use vstd::prelude::*;

use crate::chars::{char_is_uppercase, is_uppercase};
use crate::event::{KeyCode, KeyEvent, KeyModifiers};
use crate::event_parser::chevron_parser::{
    ChevronGroupError,
    ChevronGroupParser,
    ChevronGroupParsingStateView,
};

verus! {

/// Errors that may occur when trying to parse a keymaps string into a list of
/// key events.
#[derive(Clone, Copy, Debug, PartialEq, Eq)]
pub enum EventParsingError {
    /// Error occurred while parsing a chevron group.
    ///
    /// A chevron group is anything between `<` and `>`.
    ChevronGroup(ChevronGroupError),
    /// Found a closing `>` without a corresponding `<`.
    MismatchedClosingChevron,
}

/// Current state of the parser, to know what char to expect next.
#[derive(Debug)]
pub enum EventParserState {
    /// A chevron group was opened, handing the parsing over to
    /// [`ChevronGroupParser`].
    InChevron(ChevronGroupParser),
    /// Nothing special, waiting for any char.
    Idle,
}

/// What an [`EventParserState`] holds, as mathematical values.
pub enum EventParserStateView {
    /// Inside a chevron group, in the given state.
    InChevron(ChevronGroupParsingStateView),
    /// Outside any chevron group.
    Idle,
}

impl View for EventParserState {
    type V = EventParserStateView;

    open spec fn view(&self) -> EventParserStateView {
        match self {
            EventParserState::InChevron(parser) => EventParserStateView::InChevron(parser@),
            EventParserState::Idle => EventParserStateView::Idle,
        }
    }
}

impl EventParserStateView {
    /// The press of the key of a char that stands for itself: with shift
    /// where the char is in upper case, else with no modifier.
    pub open spec fn char_event(ch: char) -> KeyEvent {
        KeyEvent::new(
            KeyCode::Char(ch),
            if is_uppercase(ch) {
                KeyModifiers::shift()
            } else {
                KeyModifiers::none()
            },
        )
    }

    /// What the char `ch` does in this state: the state after it, with the
    /// event that is complete with `ch`, if one is; or the error where `ch`
    /// cannot follow.
    ///
    /// Outside a group, `<` opens a group, `>` is an error, and any other
    /// char stands for its own key. Inside a group the char goes to the
    /// group, and the char that completes the event of the group closes it.
    pub open spec fn step(self, ch: char) -> Result<(Self, Option<KeyEvent>), EventParsingError> {
        match self {
            EventParserStateView::Idle => if ch == '<' {
                Ok((EventParserStateView::InChevron(ChevronGroupParsingStateView::Opened), None))
            } else if ch == '>' {
                Err(EventParsingError::MismatchedClosingChevron)
            } else {
                Ok((EventParserStateView::Idle, Some(Self::char_event(ch))))
            },
            EventParserStateView::InChevron(group) => match group.step(ch) {
                Ok((_, Some(event))) => Ok((EventParserStateView::Idle, Some(event))),
                Ok((state, None)) => Ok((EventParserStateView::InChevron(state), None)),
                Err(error) => Err(EventParsingError::ChevronGroup(error)),
            },
        }
    }
}

impl EventParserState {
    /// The event of a char that stands for itself.
    pub fn char_event(ch: char) -> (event: KeyEvent)
        ensures
            event == EventParserStateView::char_event(ch),
    {
        KeyEvent::new(
            KeyCode::Char(ch),
            if char_is_uppercase(ch) {
                KeyModifiers::shift()
            } else {
                KeyModifiers::none()
            },
        )
    }

    /// Opens a new chevron group.
    pub fn open_chevron(&mut self)
        ensures
            final(self)@ == EventParserStateView::InChevron(ChevronGroupParsingStateView::Opened),
    {
        *self = EventParserState::InChevron(ChevronGroupParser::new());
    }

    /// Parses one more char. Returns the event that is complete with it, if
    /// one is. The state is left as it is where an error is returned.
    pub fn parse_char(&mut self, ch: char) -> (parsed: Result<Option<KeyEvent>, EventParsingError>)
        ensures
            match old(self)@.step(ch) {
                Ok((state, event)) => parsed == Ok::<_, EventParsingError>(event) && final(self)@
                    == state,
                Err(error) => parsed == Err::<Option<KeyEvent>, _>(error) && final(self)@ == old(
                    self,
                )@,
            },
    {
        match self {
            EventParserState::Idle => {
                if ch == '<' {
                    self.open_chevron();
                    Ok(None)
                } else if ch == '>' {
                    Err(EventParsingError::MismatchedClosingChevron)
                } else {
                    Ok(Some(Self::char_event(ch)))
                }
            },
            EventParserState::InChevron(chevron_parser) => {
                match chevron_parser.parse_char(ch) {
                    Ok(Some(event)) => {
                        *self = EventParserState::Idle;
                        Ok(Some(event))
                    },
                    Ok(None) => Ok(None),
                    Err(error) => Err(EventParsingError::ChevronGroup(error)),
                }
            },
        }
    }
}

impl Default for EventParserState {
    /// The state of a parser that has read nothing.
    fn default() -> (state: Self)
        ensures
            state@ == EventParserStateView::Idle,
    {
        EventParserState::Idle
    }
}

} // verus!
