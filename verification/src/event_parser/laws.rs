//! What the notation of keymap strings means, piece by piece.

use vstd::prelude::*;

use crate::chars::is_ascii_alphabetic;
use crate::event::{KeyEvent, KeyModifiers};
use crate::event_parser::chevron_parser::char_modifier::ChevronModifier;
use crate::event_parser::chevron_parser::modified_key::ModifiedKeyParsingState;
use crate::event_parser::chevron_parser::named_key::{named_key, MAX_LENGTH, MIN_LENGTH};
use crate::event_parser::chevron_parser::non_empty_modifier::NonEmptyModifiers;
use crate::event_parser::chevron_parser::ChevronGroupParsingStateView;
use crate::event_parser::state::{EventParserStateView, EventParsingError};
use crate::event_parser::{read_from, spec_parse_events};

verus! {

/// Reading from an index of the second of two strings put together goes as
/// reading from that index of the second string alone.
proof fn lemma_read_second(
    first: Seq<char>,
    second: Seq<char>,
    from: int,
    state: EventParserStateView,
    events: Seq<KeyEvent>,
)
    requires
        0 <= from <= second.len(),
    ensures
        read_from(first + second, first.len() + from, state, events) == read_from(
            second,
            from,
            state,
            events,
        ),
    decreases second.len() - from,
{
    if from < second.len() {
        assert((first + second)[first.len() + from] == second[from]);
        match state.step(second[from]) {
            Ok((next, Some(event))) => {
                lemma_read_second(first, second, from + 1, next, events.push(event));
            },
            Ok((next, None)) => {
                lemma_read_second(first, second, from + 1, next, events);
            },
            Err(error) => {},
        }
    }
}

/// Reading two strings put together from an index of the first goes as
/// reading the first from there and then the second.
proof fn lemma_read_first(
    first: Seq<char>,
    second: Seq<char>,
    from: int,
    state: EventParserStateView,
    events: Seq<KeyEvent>,
)
    requires
        0 <= from <= first.len(),
    ensures
        read_from(first + second, from, state, events) == match read_from(
            first,
            from,
            state,
            events,
        ) {
            Ok((next, read)) => read_from(second, 0, next, read),
            Err(error) => Err(error),
        },
    decreases first.len() - from,
{
    if from < first.len() {
        assert((first + second)[from] == first[from]);
        match state.step(first[from]) {
            Ok((next, Some(event))) => {
                lemma_read_first(first, second, from + 1, next, events.push(event));
            },
            Ok((next, None)) => {
                lemma_read_first(first, second, from + 1, next, events);
            },
            Err(error) => {},
        }
    } else {
        lemma_read_second(first, second, 0, state, events);
    }
}

/// A keymap string is read from the left, piece by piece: reading two
/// strings put together is reading the first, and then the second in the
/// state that the first has left. An error in the first is the error of the
/// whole.
pub proof fn lemma_read_concat(
    first: Seq<char>,
    second: Seq<char>,
    state: EventParserStateView,
    events: Seq<KeyEvent>,
)
    ensures
        read_from(first + second, 0, state, events) == match read_from(first, 0, state, events) {
            Ok((next, read)) => read_from(second, 0, next, read),
            Err(error) => Err(error),
        },
{
    lemma_read_first(first, second, 0, state, events);
}

/// Reading a string that starts with the char `ch` is one step on `ch`, and
/// then reading the rest.
pub proof fn lemma_read_char(
    ch: char,
    rest: Seq<char>,
    state: EventParserStateView,
    events: Seq<KeyEvent>,
)
    ensures
        read_from(seq![ch] + rest, 0, state, events) == match state.step(ch) {
            Ok((next, Some(event))) => read_from(rest, 0, next, events.push(event)),
            Ok((next, None)) => read_from(rest, 0, next, events),
            Err(error) => Err(error),
        },
{
    lemma_read_concat(seq![ch], rest, state, events);
    reveal_with_fuel(read_from, 2);
}

/// The events of the chars of `keymaps` from the index `from` on, where
/// each char stands for its own key.
pub open spec fn char_events_from(keymaps: Seq<char>, from: int) -> Seq<KeyEvent> {
    Seq::new(
        (keymaps.len() - from) as nat,
        |i: int| EventParserStateView::char_event(keymaps[from + i]),
    )
}

/// Outside the chevron groups every char stands for its own key: a string
/// without `<` and `>` stands for one event per char, in order.
pub proof fn lemma_plain_text(keymaps: Seq<char>, from: int, events: Seq<KeyEvent>)
    requires
        0 <= from <= keymaps.len(),
        forall|i: int| from <= i < keymaps.len() ==> keymaps[i] != '<' && keymaps[i] != '>',
    ensures
        read_from(keymaps, from, EventParserStateView::Idle, events) == Ok::<_, EventParsingError>(
            (EventParserStateView::Idle, events + char_events_from(keymaps, from)),
        ),
    decreases keymaps.len() - from,
{
    if from < keymaps.len() {
        let event = EventParserStateView::char_event(keymaps[from]);
        lemma_plain_text(keymaps, from + 1, events.push(event));
        assert(events.push(event) + char_events_from(keymaps, from + 1) =~= events
            + char_events_from(keymaps, from));
    } else {
        assert(events + char_events_from(keymaps, from) =~= events);
    }
}

/// A string without `<` and `>` is valid, and stands for the presses of its
/// chars.
pub proof fn lemma_parse_plain_text(keymaps: Seq<char>)
    requires
        forall|i: int| 0 <= i < keymaps.len() ==> keymaps[i] != '<' && keymaps[i] != '>',
    ensures
        spec_parse_events(keymaps) == Ok::<_, EventParsingError>(char_events_from(keymaps, 0)),
{
    lemma_plain_text(keymaps, 0, Seq::empty());
    assert(Seq::<KeyEvent>::empty() + char_events_from(keymaps, 0) =~= char_events_from(
        keymaps,
        0,
    ));
}

/// The chevron group of the name of a key: `<`, the name, `>`.
pub open spec fn named_group(name: Seq<char>) -> Seq<char> {
    seq!['<'] + name + seq!['>']
}

/// What holds of the name of every key: it has from [`MIN_LENGTH`] to
/// [`MAX_LENGTH`] chars, which are ASCII letters.
pub proof fn lemma_named_key_chars(name: Seq<char>)
    requires
        named_key(name) is Some,
    ensures
        MIN_LENGTH <= name.len() <= MAX_LENGTH,
        forall|i: int| 0 <= i < name.len() ==> is_ascii_alphabetic(#[trigger] name[i]),
{
    reveal_strlit("BS");
    reveal_strlit("Tab");
    reveal_strlit("CR");
    reveal_strlit("Return");
    reveal_strlit("Enter");
    reveal_strlit("Esc");
    reveal_strlit("Delete");
    reveal_strlit("Up");
    reveal_strlit("Down");
    reveal_strlit("Left");
    reveal_strlit("Right");
    reveal_strlit("Home");
    reveal_strlit("End");
    reveal_strlit("PageUp");
    reveal_strlit("PageDown");
}

/// Inside a chevron group that is the name of a key, the letters of
/// `letters` from the index `from` on join the `from` letters read so far.
proof fn lemma_read_name(letters: Seq<char>, from: int, events: Seq<KeyEvent>)
    requires
        2 <= from <= letters.len() <= MAX_LENGTH,
        forall|i: int| 0 <= i < letters.len() ==> is_ascii_alphabetic(#[trigger] letters[i]),
    ensures
        read_from(
            letters,
            from,
            EventParserStateView::InChevron(
                ChevronGroupParsingStateView::NamedKey(letters.take(from)),
            ),
            events,
        ) == Ok::<_, EventParsingError>(
            (
                EventParserStateView::InChevron(ChevronGroupParsingStateView::NamedKey(letters)),
                events,
            ),
        ),
    decreases letters.len() - from,
{
    if from < letters.len() {
        assert(is_ascii_alphabetic(letters[from]));
        assert(letters.take(from).push(letters[from]) =~= letters.take(from + 1));
        lemma_read_name(letters, from + 1, events);
    } else {
        assert(letters.take(from) =~= letters);
    }
}

/// A chevron group that holds the name of a key stands for the press of
/// that key with no modifier, and leaves the parser outside any group.
pub proof fn lemma_named_group(name: Seq<char>, events: Seq<KeyEvent>)
    requires
        named_key(name) is Some,
    ensures
        read_from(named_group(name), 0, EventParserStateView::Idle, events) == Ok::<
            _,
            EventParsingError,
        >(
            (
                EventParserStateView::Idle,
                events.push(KeyEvent::new(named_key(name)->0, KeyModifiers::none())),
            ),
        ),
{
    lemma_named_key_chars(name);
    assert(is_ascii_alphabetic(name[0]));
    assert(is_ascii_alphabetic(name[1]));
    let opened = EventParserStateView::InChevron(ChevronGroupParsingStateView::Opened);
    let named = EventParserStateView::InChevron(ChevronGroupParsingStateView::NamedKey(name));
    assert(named_group(name) == seq!['<'] + (name + seq!['>']));
    lemma_read_char('<', name + seq!['>'], EventParserStateView::Idle, events);
    lemma_read_concat(name, seq!['>'], opened, events);
    assert(read_from(name, 0, opened, events) == read_from(
        name,
        2,
        EventParserStateView::InChevron(
            ChevronGroupParsingStateView::NamedKey(seq![name[0], name[1]]),
        ),
        events,
    )) by {
        reveal_with_fuel(read_from, 3);
    }
    assert(name.take(2) =~= seq![name[0], name[1]]);
    lemma_read_name(name, 2, events);
    assert(read_from(seq!['>'], 0, named, events) == Ok::<_, EventParsingError>(
        (
            EventParserStateView::Idle,
            events.push(KeyEvent::new(named_key(name)->0, KeyModifiers::none())),
        ),
    )) by {
        reveal_with_fuel(read_from, 2);
    }
}

/// The modifier keys that the modifiers of `modifiers` name, all together.
pub open spec fn union_of(modifiers: Seq<ChevronModifier>) -> KeyModifiers
    decreases modifiers.len(),
{
    if modifiers.len() == 0 {
        KeyModifiers::none()
    } else {
        union_of(modifiers.drop_last()).union(modifiers.last().to_modifier())
    }
}

/// The letters of the modifiers of `modifiers`, each followed by a hyphen.
pub open spec fn modifier_prefix(modifiers: Seq<ChevronModifier>) -> Seq<char>
    decreases modifiers.len(),
{
    if modifiers.len() == 0 {
        Seq::empty()
    } else {
        modifier_prefix(modifiers.drop_last()) + seq![modifiers.last().to_char(), '-']
    }
}

/// The chevron group of a key with modifiers: `<`, the letter of each
/// modifier with a hyphen after it, the char of the key, `>`.
pub open spec fn modified_group(modifiers: Seq<ChevronModifier>, key: char) -> Seq<char> {
    seq!['<'] + modifier_prefix(modifiers) + seq![key, '>']
}

/// After `<` and the letters of one or more modifiers, each followed by a
/// hyphen, the parser waits for what follows a hyphen, and holds the
/// modifiers.
proof fn lemma_read_modifiers(modifiers: Seq<ChevronModifier>, events: Seq<KeyEvent>)
    requires
        modifiers.len() > 0,
    ensures
        read_from(
            seq!['<'] + modifier_prefix(modifiers),
            0,
            EventParserStateView::Idle,
            events,
        ) == Ok::<_, EventParsingError>(
            (
                EventParserStateView::InChevron(
                    ChevronGroupParsingStateView::ModifiedKey(
                        ModifiedKeyParsingState::ReadHyphen(
                            NonEmptyModifiers {
                                last_modifier: modifiers.last(),
                                previous_modifiers: union_of(modifiers.drop_last()),
                            },
                        ),
                    ),
                ),
                events,
            ),
        ),
    decreases modifiers.len(),
{
    let last = modifiers.last();
    let before = modifiers.drop_last();
    let tail = seq![last.to_char(), '-'];
    last.lemma_to_char_maybe_from();
    assert(modifier_prefix(modifiers) == modifier_prefix(before) + tail);
    if before.len() == 0 {
        assert(modifier_prefix(before) =~= Seq::<char>::empty());
        assert(seq!['<'] + modifier_prefix(modifiers) =~= seq!['<', last.to_char(), '-']);
        assert(union_of(before) == KeyModifiers::none());
        reveal_with_fuel(read_from, 4);
    } else {
        lemma_read_modifiers(before, events);
        assert(seq!['<'] + modifier_prefix(modifiers) =~= (seq!['<'] + modifier_prefix(before))
            + tail);
        lemma_read_concat(
            seq!['<'] + modifier_prefix(before),
            tail,
            EventParserStateView::Idle,
            events,
        );
        assert(union_of(before) == union_of(before.drop_last()).union(
            before.last().to_modifier(),
        ));
        reveal_with_fuel(read_from, 3);
    }
}

/// A chevron group of one or more modifiers and a key stands for the press
/// of that key with all the modifiers held, once the case of the char and
/// the shift modifier agree; and it leaves the parser outside any group. The
/// last char is the key also where it is the letter of a modifier.
pub proof fn lemma_modified_group(
    modifiers: Seq<ChevronModifier>,
    key: char,
    events: Seq<KeyEvent>,
)
    requires
        modifiers.len() > 0,
        key != '>',
        key != '-',
    ensures
        read_from(modified_group(modifiers, key), 0, EventParserStateView::Idle, events) == Ok::<
            _,
            EventParsingError,
        >(
            (
                EventParserStateView::Idle,
                events.push(
                    NonEmptyModifiers::spec_build_event_from_char_modifiers(
                        key,
                        union_of(modifiers),
                    ),
                ),
            ),
        ),
{
    lemma_read_modifiers(modifiers, events);
    assert(modified_group(modifiers, key) =~= (seq!['<'] + modifier_prefix(modifiers)) + seq![
        key,
        '>',
    ]);
    lemma_read_concat(
        seq!['<'] + modifier_prefix(modifiers),
        seq![key, '>'],
        EventParserStateView::Idle,
        events,
    );
    assert(union_of(modifiers) == union_of(modifiers.drop_last()).union(
        modifiers.last().to_modifier(),
    ));
    reveal_with_fuel(read_from, 3);
}

} // verus!
