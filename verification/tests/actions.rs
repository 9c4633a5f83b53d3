use vim_buffer::buffer::motion::{find_before, find_from, CharTest};
use vim_buffer::chars::{
    is_ascii_alphabetic, is_ascii_uppercase, is_ident_char, to_ascii_uppercase, xor_ident_char,
};
use vim_buffer::text::{insert_char, remove_char, replace_char, to_chars};
use vim_buffer::{Action, Buffer, GoToAction, Mode};

fn buffer_at(content: &str, cursor: usize) -> Buffer {
    let mut buffer = Buffer::from(content);
    for _ in 0..cursor {
        assert!(buffer.update_cursor(GoToAction::Right));
    }
    assert_eq!(buffer.as_cursor(), cursor);
    buffer
}

fn after(content: &str, cursor: usize, action: Action) -> (bool, String, usize) {
    let mut buffer = buffer_at(content, cursor);
    let success = buffer.update_once(action);
    (success, buffer.as_content().clone(), buffer.as_cursor())
}

fn moved(content: &str, cursor: usize, goto: GoToAction) -> Option<usize> {
    let mut buffer = buffer_at(content, cursor);
    let success = buffer.update_cursor(goto);
    assert_eq!(buffer.as_content(), content);
    if success {
        Some(buffer.as_cursor())
    } else {
        assert_eq!(buffer.as_cursor(), cursor);
        None
    }
}

#[test]
fn insert_char_at_cursor() {
    assert_eq!(after("", 0, Action::InsertChar('a')), (true, "a".to_string(), 1));
    assert_eq!(after("abc", 0, Action::InsertChar('x')), (true, "xabc".to_string(), 1));
    assert_eq!(after("abc", 2, Action::InsertChar('x')), (true, "abxc".to_string(), 3));
    assert_eq!(after("abc", 3, Action::InsertChar('x')), (true, "abcx".to_string(), 4));
    assert_eq!(after("éà", 1, Action::InsertChar('ü')), (true, "éüà".to_string(), 2));
}

#[test]
fn delete_next_char() {
    assert_eq!(after("abc", 0, Action::DeleteNextChar), (true, "bc".to_string(), 0));
    assert_eq!(after("abc", 1, Action::DeleteNextChar), (true, "ac".to_string(), 0));
    assert_eq!(after("abc", 2, Action::DeleteNextChar), (true, "ab".to_string(), 1));
    assert_eq!(after("abc", 3, Action::DeleteNextChar), (false, "abc".to_string(), 3));
    assert_eq!(after("", 0, Action::DeleteNextChar), (false, "".to_string(), 0));
}

#[test]
fn delete_previous_char() {
    assert_eq!(after("abc", 0, Action::DeletePreviousChar), (false, "abc".to_string(), 0));
    assert_eq!(after("abc", 1, Action::DeletePreviousChar), (true, "bc".to_string(), 0));
    assert_eq!(after("abc", 3, Action::DeletePreviousChar), (true, "ab".to_string(), 2));
    assert_eq!(after("", 0, Action::DeletePreviousChar), (false, "".to_string(), 0));
}

#[test]
fn delete_line() {
    assert_eq!(after("abc", 2, Action::DeleteLine), (true, "".to_string(), 0));
    assert_eq!(after("", 0, Action::DeleteLine), (true, "".to_string(), 0));
}

#[test]
fn replace_with() {
    assert_eq!(after("abc", 1, Action::ReplaceWith('x')), (true, "axc".to_string(), 1));
    assert_eq!(after("abc", 3, Action::ReplaceWith('x')), (false, "abc".to_string(), 3));
    assert_eq!(after("", 0, Action::ReplaceWith('x')), (false, "".to_string(), 0));
}

#[test]
fn select_mode() {
    let mut buffer = Buffer::from("abc");
    assert!(buffer.update_once(Action::SelectMode(Mode::Insert)));
    assert_eq!(buffer.as_mode(), Mode::Insert);
    assert!(buffer.update_once(Action::SelectMode(Mode::Insert)));
    assert_eq!(buffer.as_mode(), Mode::Insert);
    assert!(buffer.update_once(Action::SelectMode(Mode::Normal)));
    assert_eq!(buffer.as_mode(), Mode::Normal);
}

#[test]
fn undo_and_redo_actions() {
    let mut buffer = Buffer::from("abc");
    assert!(!buffer.update_once(Action::Undo));
    assert!(!buffer.update_once(Action::Redo));
    assert!(buffer.update_once(Action::DeleteNextChar));
    buffer.save_to_history();
    assert!(buffer.update_once(Action::Undo));
    assert_eq!(buffer.as_content(), "abc");
    assert!(buffer.update_once(Action::Redo));
    assert_eq!(buffer.as_content(), "bc");
    assert!(!buffer.update_once(Action::Redo));
    assert!(buffer.pop_from_history());
    assert!(!buffer.pop_from_history());
    assert!(buffer.push_from_history());
    assert!(!buffer.push_from_history());
}

#[test]
fn save_to_history_in_insert_mode_records_nothing() {
    let mut buffer = Buffer::from("abc");
    assert!(buffer.update_once(Action::SelectMode(Mode::Insert)));
    assert!(buffer.update_once(Action::InsertChar('x')));
    buffer.save_to_history();
    assert!(!buffer.update_once(Action::Undo));
    assert!(buffer.update_once(Action::SelectMode(Mode::Normal)));
    buffer.save_to_history();
    assert!(buffer.update_once(Action::Undo));
    assert_eq!(buffer.as_content(), "abc");
}

#[test]
fn simple_motions() {
    assert_eq!(moved("abc", 1, GoToAction::Left), Some(0));
    assert_eq!(moved("abc", 0, GoToAction::Left), Some(0));
    assert_eq!(moved("abc", 2, GoToAction::Right), Some(3));
    assert_eq!(moved("abc", 3, GoToAction::Right), Some(3));
    assert_eq!(moved("abc", 2, GoToAction::Bol), Some(0));
    assert_eq!(moved("abc", 1, GoToAction::Eol), Some(3));
    assert_eq!(moved("", 0, GoToAction::Eol), Some(0));
}

#[test]
fn first_non_space() {
    assert_eq!(moved("  ab", 3, GoToAction::FirstNonSpace), Some(2));
    assert_eq!(moved("ab", 1, GoToAction::FirstNonSpace), Some(0));
    assert_eq!(moved("   ", 1, GoToAction::FirstNonSpace), Some(3));
    assert_eq!(moved("", 0, GoToAction::FirstNonSpace), Some(0));
    assert_eq!(moved("\t\u{a0} x", 0, GoToAction::FirstNonSpace), Some(3));
}

#[test]
fn next_occurrence() {
    assert_eq!(moved("abcabc", 0, GoToAction::NextOccurrenceOf('c')), Some(2));
    assert_eq!(moved("abcabc", 2, GoToAction::NextOccurrenceOf('c')), Some(5));
    assert_eq!(moved("abcabc", 0, GoToAction::NextOccurrenceOf('a')), Some(3));
    assert_eq!(moved("abcabc", 5, GoToAction::NextOccurrenceOf('c')), None);
    assert_eq!(moved("abcabc", 6, GoToAction::NextOccurrenceOf('c')), None);
    assert_eq!(moved("abcabc", 3, GoToAction::NextOccurrenceOf('a')), None);
    assert_eq!(moved("abcabc", 0, GoToAction::NextOccurrenceOf('z')), None);
    assert_eq!(moved("", 0, GoToAction::NextOccurrenceOf('z')), None);
}

#[test]
fn previous_occurrence() {
    assert_eq!(moved("abcabc", 6, GoToAction::PreviousOccurrenceOf('c')), Some(5));
    assert_eq!(moved("abcabc", 5, GoToAction::PreviousOccurrenceOf('c')), Some(2));
    assert_eq!(moved("abcabc", 3, GoToAction::PreviousOccurrenceOf('a')), Some(0));
    assert_eq!(moved("abcabc", 2, GoToAction::PreviousOccurrenceOf('c')), None);
    assert_eq!(moved("abcabc", 0, GoToAction::PreviousOccurrenceOf('a')), None);
    assert_eq!(moved("abcabc", 6, GoToAction::PreviousOccurrenceOf('z')), None);
}

#[test]
fn next_word() {
    assert_eq!(moved("ab  cd", 0, GoToAction::NextWord), Some(4));
    assert_eq!(moved("ab  cd", 1, GoToAction::NextWord), Some(4));
    assert_eq!(moved("ab  cd", 2, GoToAction::NextWord), Some(4));
    assert_eq!(moved("ab  cd", 4, GoToAction::NextWord), Some(6));
    assert_eq!(moved("ab  cd", 6, GoToAction::NextWord), Some(6));
    assert_eq!(moved("ab::cd", 0, GoToAction::NextWord), Some(2));
    assert_eq!(moved("ab::cd", 2, GoToAction::NextWord), Some(4));
    assert_eq!(moved("a_1 b", 0, GoToAction::NextWord), Some(4));
    assert_eq!(moved("ab  ", 0, GoToAction::NextWord), Some(4));
    assert_eq!(moved("", 0, GoToAction::NextWord), Some(0));
}

#[test]
fn next_big_word() {
    assert_eq!(moved("ab::cd  ef", 0, GoToAction::NextWORD), Some(8));
    assert_eq!(moved("ab::cd  ef", 6, GoToAction::NextWORD), Some(8));
    assert_eq!(moved("ab::cd  ef", 8, GoToAction::NextWORD), Some(10));
    assert_eq!(moved("ab\tcd", 0, GoToAction::NextWORD), Some(3));
    assert_eq!(moved("ab  ", 0, GoToAction::NextWORD), Some(4));
    assert_eq!(moved("", 0, GoToAction::NextWORD), Some(0));
}

#[test]
fn previous_word() {
    assert_eq!(moved("ab  cd", 6, GoToAction::PreviousWord), Some(4));
    assert_eq!(moved("ab  cd", 5, GoToAction::PreviousWord), Some(4));
    assert_eq!(moved("ab  cd", 4, GoToAction::PreviousWord), Some(0));
    assert_eq!(moved("ab  cd", 3, GoToAction::PreviousWord), Some(0));
    assert_eq!(moved("ab  cd", 0, GoToAction::PreviousWord), Some(0));
    assert_eq!(moved("ab::cd", 6, GoToAction::PreviousWord), Some(4));
    assert_eq!(moved("ab::cd", 4, GoToAction::PreviousWord), Some(2));
    assert_eq!(moved(" x y", 3, GoToAction::PreviousWord), Some(1));
    assert_eq!(moved("   ", 3, GoToAction::PreviousWord), Some(0));
}

#[test]
fn previous_big_word() {
    assert_eq!(moved("ab::cd  ef", 10, GoToAction::PreviousWORD), Some(8));
    assert_eq!(moved("ab::cd  ef", 8, GoToAction::PreviousWORD), Some(0));
    assert_eq!(moved("ab::cd  ef", 7, GoToAction::PreviousWORD), Some(0));
    assert_eq!(moved(" x y", 3, GoToAction::PreviousWORD), Some(1));
    assert_eq!(moved(" x y", 1, GoToAction::PreviousWORD), Some(0));
    assert_eq!(moved("   ", 3, GoToAction::PreviousWORD), Some(0));
}

#[test]
fn word_motions_by_name() {
    let mut buffer = buffer_at("ab  cd ef", 0);
    buffer.goto_next_word();
    assert_eq!(buffer.as_cursor(), 4);
    buffer.goto_next_WORD();
    assert_eq!(buffer.as_cursor(), 7);
    buffer.goto_previous_word();
    assert_eq!(buffer.as_cursor(), 4);
    buffer.goto_previous_WORD();
    assert_eq!(buffer.as_cursor(), 0);
}

#[test]
fn failed_motion_changes_nothing() {
    let mut buffer = buffer_at("abcabc", 3);
    assert!(!buffer.update_once(Action::GoTo(GoToAction::NextOccurrenceOf('z'))));
    assert_eq!((buffer.as_content().as_str(), buffer.as_cursor()), ("abcabc", 3));
    assert!(!buffer.update_cursor(GoToAction::PreviousOccurrenceOf('z')));
    assert_eq!((buffer.as_content().as_str(), buffer.as_cursor()), ("abcabc", 3));
    buffer.update_from_string("fztzFzTz").unwrap();
    assert_eq!((buffer.as_content().as_str(), buffer.as_cursor()), ("abcabc", 3));
    assert_eq!(buffer.as_mode(), Mode::Normal);
}

#[test]
fn failed_action_stops_the_binding() {
    let mut buffer = Buffer::default();
    buffer.update_from_string("s").unwrap();
    assert_eq!(buffer.as_mode(), Mode::Normal);
    let mut buffer = Buffer::from("ab");
    buffer.update_from_string("s").unwrap();
    assert_eq!(buffer.as_mode(), Mode::Insert);
    assert_eq!(buffer.as_content(), "b");
}

#[test]
fn unbound_chars_in_normal_mode_do_nothing() {
    let mut buffer = Buffer::from("abc");
    for ch in "cdegjkmnopqvyz".chars() {
        let event = vim_buffer::KeyEvent::new(
            vim_buffer::KeyCode::Char(ch),
            vim_buffer::KeyModifiers::none(),
        );
        assert!(!buffer.update(&event), "{ch}");
    }
    assert_eq!(buffer.as_content(), "abc");
    assert_eq!(buffer.as_cursor(), 0);
}

#[test]
fn searches() {
    let chars = to_chars("ab cd");
    assert_eq!(find_from(&chars, 0, CharTest::Space), 2);
    assert_eq!(find_from(&chars, 2, CharTest::Space), 2);
    assert_eq!(find_from(&chars, 3, CharTest::Space), 5);
    assert_eq!(find_from(&chars, 5, CharTest::Space), 5);
    assert_eq!(find_from(&chars, 2, CharTest::NonSpace), 3);
    assert_eq!(find_from(&chars, 0, CharTest::Is('d')), 4);
    assert_eq!(find_from(&chars, 0, CharTest::Is('z')), 5);
    assert_eq!(find_from(&chars, 0, CharTest::XorIdent('a')), 2);
    assert_eq!(find_from(&chars, 0, CharTest::XorIdent(' ')), 0);
    assert_eq!(find_before(&chars, 5, CharTest::Space), Some(2));
    assert_eq!(find_before(&chars, 2, CharTest::Space), None);
    assert_eq!(find_before(&chars, 5, CharTest::Is('d')), Some(4));
    assert_eq!(find_before(&chars, 4, CharTest::Is('d')), None);
    assert_eq!(find_before(&chars, 0, CharTest::NonSpace), None);
    assert_eq!(find_before(&chars, 3, CharTest::NonSpace), Some(1));
}

#[test]
fn char_classes() {
    assert!(is_ascii_uppercase('A') && is_ascii_uppercase('Z'));
    assert!(!is_ascii_uppercase('a') && !is_ascii_uppercase('@') && !is_ascii_uppercase('['));
    assert!(!is_ascii_uppercase('É'));
    assert!(is_ascii_alphabetic('a') && is_ascii_alphabetic('z') && is_ascii_alphabetic('M'));
    assert!(!is_ascii_alphabetic('`') && !is_ascii_alphabetic('{') && !is_ascii_alphabetic('1'));
    assert_eq!(to_ascii_uppercase('a'), 'A');
    assert_eq!(to_ascii_uppercase('z'), 'Z');
    assert_eq!(to_ascii_uppercase('A'), 'A');
    assert_eq!(to_ascii_uppercase('1'), '1');
    assert_eq!(to_ascii_uppercase('é'), 'é');
    assert!(is_ident_char('a') && is_ident_char('Z') && is_ident_char('0') && is_ident_char('_'));
    assert!(is_ident_char('9'));
    assert!(!is_ident_char(' ') && !is_ident_char('-') && !is_ident_char('é'));
    assert!(xor_ident_char('a', ' ') && xor_ident_char('(', '_'));
    assert!(!xor_ident_char('a', 'b') && !xor_ident_char('(', ' '));
    for code in 0..=0x7f_u8 {
        let ch = code as char;
        assert_eq!(is_ascii_uppercase(ch), ch.is_ascii_uppercase());
        assert_eq!(is_ascii_alphabetic(ch), ch.is_ascii_alphabetic());
        assert_eq!(to_ascii_uppercase(ch), ch.to_ascii_uppercase());
    }
}

#[test]
fn text_edits() {
    assert_eq!(to_chars("aé"), vec!['a', 'é']);
    assert_eq!(to_chars(""), Vec::<char>::new());
    assert_eq!(insert_char("", 0, 'x'), "x");
    assert_eq!(insert_char("éà", 0, 'x'), "xéà");
    assert_eq!(insert_char("éà", 1, 'x'), "éxà");
    assert_eq!(insert_char("éà", 2, 'x'), "éàx");
    assert_eq!(remove_char("éàü", 0), "àü");
    assert_eq!(remove_char("éàü", 1), "éü");
    assert_eq!(remove_char("éàü", 2), "éà");
    assert_eq!(replace_char("éàü", 1, 'x'), "éxü");
    assert_eq!(replace_char("a", 0, 'é'), "é");
}
