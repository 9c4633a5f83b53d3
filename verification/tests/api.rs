use vim_buffer::{
    parse_events, Buffer, ChevronGroupError, EventParsingError, KeyCode, KeyEvent, KeyModifiers,
    Mode, ModifiedKeyError,
};

fn evt(code: KeyCode) -> KeyEvent {
    KeyEvent::new(code, KeyModifiers::none())
}

fn chr(ch: char) -> KeyEvent {
    evt(KeyCode::Char(ch))
}

#[test]
fn api_do_nothing() {
    let mut buffer = Buffer::default();
    assert!(!buffer.update(&evt(KeyCode::Enter)));
    assert!(buffer.update(&chr('i')));
    assert!(!buffer.update(&evt(KeyCode::Enter)));
}

#[test]
fn api_mode_switch() {
    let mut buffer = Buffer::default();
    assert_eq!(buffer.as_mode(), Mode::Normal);
    assert!(buffer.update(&chr('i')));
    assert_eq!(buffer.as_mode(), Mode::Insert);
    assert!(buffer.update(&evt(KeyCode::Esc)));
    assert_eq!(buffer.as_mode(), Mode::Normal);
}

#[test]
fn api_empty_group() {
    let mut buffer = Buffer::default();
    assert_eq!(
        buffer.update_from_string("<>"),
        Err(EventParsingError::ChevronGroup(
            ChevronGroupError::ExpectedLetter { got: '>' }
        ))
    );
}

#[test]
fn from_string() {
    assert_eq!(Buffer::from("abc").as_content(), "abc");
    assert_eq!(Buffer::from(String::from("abc")).as_content(), "abc");
}

#[test]
fn default() {
    let buffer = Buffer::default();
    assert!(buffer.is_empty());
    assert_eq!(buffer.as_cursor(), 0);
    assert_eq!(buffer.as_mode(), Mode::Normal);
}

#[test]
fn sizes() {
    let mut buffer = Buffer::default();
    buffer.update_from_string("iabcdef<BS><Left>").unwrap();
    assert_eq!(buffer.len(), 5);
    assert_eq!(buffer.as_cursor(), 4);
}

#[test]
fn getters_of_a_buffer_made_from_a_text() {
    let buffer = Buffer::from("hello");
    assert!(!buffer.is_empty());
    assert_eq!(buffer.len(), 5);
    assert_eq!(buffer.as_cursor(), 0);
    assert_eq!(buffer.as_end_index(), 5);
    assert_eq!(buffer.as_mode(), Mode::Normal);
}

#[test]
fn lengths_count_chars() {
    let mut buffer = Buffer::from("héé");
    assert_eq!(buffer.len(), 3);
    buffer.update_from_string("$").unwrap();
    assert_eq!(buffer.as_cursor(), 3);
    assert_eq!(buffer.as_end_index(), 0);
    buffer.update_from_string("iü<Esc>").unwrap();
    assert_eq!(buffer.as_content(), "hééü");
    assert_eq!(buffer.len(), 4);
    buffer.update_from_string("0lx").unwrap();
    assert_eq!(buffer.as_content(), "héü");
    buffer.update_from_string("lrà").unwrap();
    assert_eq!(buffer.as_content(), "hàü");
}

#[test]
fn hello_then_escape() {
    let mut buffer = Buffer::default();
    buffer.update_from_string("iHello").unwrap();
    assert!(buffer.update(&evt(KeyCode::Esc)));
    assert_eq!(buffer.as_content(), "Hello");
    assert_eq!(buffer.as_cursor(), 4);
    assert_eq!(buffer.as_mode(), Mode::Normal);
}

#[test]
fn three_parse_errors() {
    assert_eq!(
        parse_events("<>"),
        Err(EventParsingError::ChevronGroup(ChevronGroupError::ExpectedLetter { got: '>' }))
    );
    assert_eq!(
        parse_events("<C->"),
        Err(EventParsingError::ChevronGroup(ChevronGroupError::ModifiedKey(
            ModifiedKeyError::MissingChar
        )))
    );
    assert_eq!(parse_events(">"), Err(EventParsingError::MismatchedClosingChevron));
}

#[test]
fn invalid_string_leaves_buffer_unchanged() {
    let mut buffer = Buffer::from("abc");
    assert_eq!(
        buffer.update_from_string("ixyz<Esc><>"),
        Err(EventParsingError::ChevronGroup(ChevronGroupError::ExpectedLetter { got: '>' }))
    );
    assert_eq!(buffer.as_content(), "abc");
    assert_eq!(buffer.as_cursor(), 0);
    assert_eq!(buffer.as_mode(), Mode::Normal);
    assert!(!buffer.update(&chr('u')));
}

#[test]
fn string_and_events_agree() {
    let keymaps = "iab cd<Esc>0wxxu<C-r>Aef<Esc>bbrZfezhsq<Esc>uu<C-r>";
    let mut by_string = Buffer::from("seed");
    by_string.update_from_string(keymaps).unwrap();
    let mut by_events = Buffer::from("seed");
    for event in parse_events(keymaps).unwrap() {
        by_events.update(&event);
    }
    assert_eq!(by_string.as_content(), by_events.as_content());
    assert_eq!(by_string.as_cursor(), by_events.as_cursor());
    assert_eq!(by_string.as_mode(), by_events.as_mode());
    for _ in 0..8 {
        assert_eq!(by_string.update(&chr('u')), by_events.update(&chr('u')));
        assert_eq!(by_string.as_content(), by_events.as_content());
    }
}

#[test]
fn cursor_stays_in_content() {
    let keys = "iab c<Esc>x$xXhlwbWB0^fztaFbTcrqSiu<BS><Left><Right><Esc>uu<C-r>s";
    let events = parse_events(keys).unwrap();
    let mut buffer = Buffer::default();
    for round in 0..4 {
        for (index, event) in events.iter().enumerate() {
            if (index + round) % 5 != 4 {
                buffer.update(event);
            }
            assert!(buffer.as_cursor() <= buffer.len());
        }
    }
}
