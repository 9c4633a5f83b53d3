use vim_buffer::{
    parse_events, ChevronGroupError, EventParsingError, KeyCode, KeyEvent, KeyModifiers,
    ModifiedKeyError,
};

fn evt(code: KeyCode) -> KeyEvent {
    KeyEvent::new(code, KeyModifiers::none())
}

fn chr(ch: char) -> KeyEvent {
    evt(KeyCode::Char(ch))
}

fn mod_evt(ch: char, modifiers: KeyModifiers) -> KeyEvent {
    KeyEvent { code: KeyCode::Char(ch), modifiers, is_press: true }
}

fn group_error(error: ChevronGroupError) -> Result<Vec<KeyEvent>, EventParsingError> {
    Err(EventParsingError::ChevronGroup(error))
}

fn key_error(error: ModifiedKeyError) -> Result<Vec<KeyEvent>, EventParsingError> {
    group_error(ChevronGroupError::ModifiedKey(error))
}

#[test]
fn empty_chevron_group() {
    assert_eq!(
        parse_events("<>"),
        Err(EventParsingError::ChevronGroup(
            ChevronGroupError::ExpectedLetter { got: '>' }
        ))
    );
}

#[test]
fn missing_char() {
    assert_eq!(
        parse_events("<C->"),
        Err(EventParsingError::ChevronGroup(ChevronGroupError::ModifiedKey(
            ModifiedKeyError::MissingChar
        ))),
    );
}

#[test]
fn missing_char_and_hyphen() {
    assert_eq!(
        parse_events("<C>"),
        Err(EventParsingError::ChevronGroup(
            ChevronGroupError::SingleCharGroup
        )),
    );
}

#[test]
fn missing_modifier_and_hyphen() {
    assert_eq!(
        parse_events("<c>"),
        Err(EventParsingError::ChevronGroup(
            ChevronGroupError::SingleCharGroup
        )),
    );
}

#[test]
fn too_many_separated_chars() {
    assert_eq!(
        parse_events("<C-a-b>"),
        Err(EventParsingError::ChevronGroup(ChevronGroupError::ModifiedKey(
            ModifiedKeyError::ExpectedChevron { got: '-' }
        )))
    );
}

#[test]
fn too_many_successive_chars() {
    assert_eq!(
        parse_events("<C-ab>"),
        Err(EventParsingError::ChevronGroup(ChevronGroupError::ModifiedKey(
            ModifiedKeyError::ExpectedChevron { got: 'b' }
        )))
    );
}

#[test]
fn missing_modifier() {
    assert_eq!(
        parse_events("<->"),
        Err(EventParsingError::ChevronGroup(
            ChevronGroupError::ExpectedLetter { got: '-' }
        )),
    );
}

#[test]
fn missing_hypen() {
    assert_eq!(
        parse_events("<Ca>"),
        Err(EventParsingError::ChevronGroup(
            ChevronGroupError::InvalidNamedKey
        )),
    );
}

#[test]
fn control_shift_alt_s() {
    assert_eq!(
        parse_events("<C-S-A>"),
        Ok(vec![mod_evt('A', KeyModifiers::control().union(KeyModifiers::shift()))])
    );
}

#[test]
fn alternate() {
    assert_eq!(
        parse_events("a<M-b>c<D-d>e"),
        Ok(vec![
            chr('a'),
            mod_evt('b', KeyModifiers::alt()),
            chr('c'),
            mod_evt('d', KeyModifiers::sup()),
            chr('e')
        ])
    );
}

#[test]
fn backspace() {
    assert_eq!(parse_events("<BS>"), Ok(vec![evt(KeyCode::Backspace)]));
}

#[test]
fn enter_return() {
    assert_eq!(parse_events("<Return>"), Ok(vec![evt(KeyCode::Enter)]));
}

#[test]
fn mismatched_chevron() {
    assert_eq!(parse_events(">"), Err(EventParsingError::MismatchedClosingChevron),);
}

#[test]
fn invalid_modifier() {
    assert_eq!(
        parse_events("<c-s>"),
        Err(EventParsingError::ChevronGroup(ChevronGroupError::ModifiedKey(
            ModifiedKeyError::InvalidModifier('c')
        ))),
    );
}

#[test]
fn non_u8_char() {
    assert_eq!(
        parse_events("<a\u{fff}>"),
        Err(EventParsingError::ChevronGroup(
            ChevronGroupError::InvalidNamedKey
        )),
    );
}

#[test]
fn to_many_letters() {
    assert_eq!(
        parse_events("<C-Cs>"),
        Err(EventParsingError::ChevronGroup(ChevronGroupError::ModifiedKey(
            ModifiedKeyError::ExpectedChevronOrHyphen { got: 's' }
        ))),
    );
}

#[test]
fn key_too_long() {
    assert_eq!(
        parse_events("<Caaaaaaaaaaaaaaaaaaaaaaaaaaaaaaaaaaaaaaaaaaa>"),
        Err(EventParsingError::ChevronGroup(
            ChevronGroupError::InvalidNamedKey
        )),
    );
}

#[test]
fn shift_without_modifiers() {
    let events = parse_events("S").unwrap();
    let event = events.first().unwrap();
    assert!(event.is_press);
    assert_eq!(event.modifiers, KeyModifiers::shift());
}

#[test]
fn named_keys() {
    assert_eq!(
        parse_events("<Up><Down><Left><Right><Tab><BS><CR><Esc>"),
        Ok(vec![
            evt(KeyCode::Up),
            evt(KeyCode::Down),
            evt(KeyCode::Left),
            evt(KeyCode::Right),
            evt(KeyCode::Tab),
            evt(KeyCode::Backspace),
            evt(KeyCode::Enter),
            evt(KeyCode::Esc)
        ])
    );
}

#[test]
fn every_named_key() {
    assert_eq!(
        parse_events("<Enter><Delete><Home><End><PageUp><PageDown>"),
        Ok(vec![
            evt(KeyCode::Enter),
            evt(KeyCode::Delete),
            evt(KeyCode::Home),
            evt(KeyCode::End),
            evt(KeyCode::PageUp),
            evt(KeyCode::PageDown)
        ])
    );
}

#[test]
fn named_keys_are_case_sensitive() {
    assert_eq!(parse_events("<esc>"), group_error(ChevronGroupError::InvalidNamedKey));
    assert_eq!(parse_events("<ESC>"), group_error(ChevronGroupError::InvalidNamedKey));
    assert_eq!(parse_events("<Pageup>"), group_error(ChevronGroupError::InvalidNamedKey));
}

#[test]
fn longest_name_and_one_more() {
    assert_eq!(parse_events("<PageDown>"), Ok(vec![evt(KeyCode::PageDown)]));
    assert_eq!(parse_events("<PageDowna"), group_error(ChevronGroupError::InvalidNamedKey));
    assert_eq!(parse_events("<PageDow\u{100}"), group_error(ChevronGroupError::InvalidNamedKey));
    assert_eq!(parse_events("<a\u{e9}>"), group_error(ChevronGroupError::InvalidNamedKey));
}

#[test]
fn empty_string() {
    assert_eq!(parse_events(""), Ok(vec![]));
}

#[test]
fn plain_chars() {
    assert_eq!(
        parse_events("a-B 0"),
        Ok(vec![
            chr('a'),
            chr('-'),
            mod_evt('B', KeyModifiers::shift()),
            chr(' '),
            chr('0')
        ])
    );
    assert_eq!(parse_events("É"), Ok(vec![mod_evt('É', KeyModifiers::shift())]));
}

#[test]
fn open_group_at_the_end_stands_for_nothing() {
    assert_eq!(parse_events("a<"), Ok(vec![chr('a')]));
    assert_eq!(parse_events("a<C"), Ok(vec![chr('a')]));
    assert_eq!(parse_events("a<C-"), Ok(vec![chr('a')]));
    assert_eq!(parse_events("a<C-x"), Ok(vec![chr('a')]));
    assert_eq!(parse_events("a<Es"), Ok(vec![chr('a')]));
}

#[test]
fn error_gives_no_event() {
    assert_eq!(parse_events("abc>"), Err(EventParsingError::MismatchedClosingChevron));
    assert_eq!(
        parse_events("abc<Esc><1>"),
        group_error(ChevronGroupError::ExpectedLetter { got: '1' })
    );
}

#[test]
fn chevron_inside_group() {
    assert_eq!(parse_events("<<"), group_error(ChevronGroupError::ExpectedLetter { got: '<' }));
    assert_eq!(parse_events("<E<>"), group_error(ChevronGroupError::InvalidNamedKey));
    assert_eq!(parse_events("<C-<>"), Ok(vec![mod_evt('<', KeyModifiers::control())]));
}

#[test]
fn control_r() {
    assert_eq!(parse_events("<C-r>"), Ok(vec![mod_evt('r', KeyModifiers::control())]));
}

#[test]
fn capital_key_adds_shift() {
    assert_eq!(
        parse_events("<C-X>"),
        Ok(vec![mod_evt('X', KeyModifiers::control().union(KeyModifiers::shift()))])
    );
}

#[test]
fn shift_capitalises_key() {
    assert_eq!(
        parse_events("<S-a>"),
        Ok(vec![mod_evt('A', KeyModifiers::shift())])
    );
    assert_eq!(
        parse_events("<C-S-x>"),
        Ok(vec![mod_evt('X', KeyModifiers::control().union(KeyModifiers::shift()))])
    );
}

#[test]
fn last_modifier_letter_is_the_key() {
    assert_eq!(
        parse_events("<C-C><A-M><C-S><T-D>"),
        Ok(vec![
            mod_evt('C', KeyModifiers::control().union(KeyModifiers::shift())),
            mod_evt('M', KeyModifiers::alt().union(KeyModifiers::shift())),
            mod_evt('S', KeyModifiers::control().union(KeyModifiers::shift())),
            mod_evt('D', KeyModifiers::meta().union(KeyModifiers::shift())),
        ])
    );
    assert_eq!(
        parse_events("<T-T>"),
        Ok(vec![mod_evt('T', KeyModifiers::meta().union(KeyModifiers::shift()))])
    );
}

#[test]
fn every_modifier_letter() {
    let all = KeyModifiers::control()
        .union(KeyModifiers::alt())
        .union(KeyModifiers::meta())
        .union(KeyModifiers::sup());
    assert_eq!(parse_events("<C-M-T-D-x>"), Ok(vec![mod_evt('x', all)]));
    assert_eq!(parse_events("<A-x>"), Ok(vec![mod_evt('x', KeyModifiers::alt())]));
    assert_eq!(parse_events("<M-x>"), Ok(vec![mod_evt('x', KeyModifiers::alt())]));
}

#[test]
fn modified_key_errors() {
    assert_eq!(parse_events("<C-->"), key_error(ModifiedKeyError::MissingChar));
    assert_eq!(
        parse_events("<C-Sx>"),
        key_error(ModifiedKeyError::ExpectedChevronOrHyphen { got: 'x' })
    );
    assert_eq!(
        parse_events("<C-xy>"),
        key_error(ModifiedKeyError::ExpectedChevron { got: 'y' })
    );
    assert_eq!(parse_events("<x-a>"), key_error(ModifiedKeyError::InvalidModifier('x')));
}
