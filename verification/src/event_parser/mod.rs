//! From a keymap string such as `"i0<Esc><C-r>"` to the key events that it
//! stands for.

pub mod chevron_parser;
pub mod laws;
pub mod state;

use vstd::prelude::*;

use crate::event::KeyEvent;
use crate::event_parser::state::{EventParserState, EventParserStateView, EventParsingError};

verus! {

/// The state of a parser that starts in `state` and reads the chars of
/// `keymaps` from the index `from` on, and the events that these chars stand
/// for, after `events`; or the first error.
pub open spec fn read_from(
    keymaps: Seq<char>,
    from: int,
    state: EventParserStateView,
    events: Seq<KeyEvent>,
) -> Result<(EventParserStateView, Seq<KeyEvent>), EventParsingError>
    decreases keymaps.len() - from,
{
    if from < 0 || from >= keymaps.len() {
        Ok((state, events))
    } else {
        match state.step(keymaps[from]) {
            Ok((next, Some(event))) => read_from(keymaps, from + 1, next, events.push(event)),
            Ok((next, None)) => read_from(keymaps, from + 1, next, events),
            Err(error) => Err(error),
        }
    }
}

/// The events that `keymaps` stands for, or the first error in it. The chars
/// are read one by one, from the left. A chevron group that the end of the
/// string leaves open stands for nothing.
pub open spec fn spec_parse_events(keymaps: Seq<char>) -> Result<Seq<KeyEvent>, EventParsingError> {
    match read_from(keymaps, 0, EventParserStateView::Idle, Seq::empty()) {
        Ok((_, events)) => Ok(events),
        Err(error) => Err(error),
    }
}

/// Transforms a string input of keymaps into a list of events.
///
/// Returns a [`EventParsingError`] when the input has an invalid format, and
/// then no event at all.
pub fn parse_events(keymaps: &str) -> (parsed: Result<Vec<KeyEvent>, EventParsingError>)
    ensures
        match spec_parse_events(keymaps@) {
            Ok(events) => parsed is Ok && parsed->Ok_0@ == events,
            Err(error) => parsed == Err::<Vec<KeyEvent>, _>(error),
        },
{
    let mut parser = EventParserState::default();
    let mut events: Vec<KeyEvent> = Vec::new();
    for ch in iter: keymaps.chars()
        invariant
            iter.seq() == keymaps@,
            read_from(keymaps@, 0, EventParserStateView::Idle, Seq::empty()) == read_from(
                keymaps@,
                iter.index() as int,
                parser@,
                events@,
            ),
    {
        match parser.parse_char(ch) {
            Ok(Some(event)) => {
                events.push(event);
            },
            Ok(None) => {},
            Err(error) => {
                return Err(error);
            },
        }
    }
    Ok(events)
}

} // verus!
