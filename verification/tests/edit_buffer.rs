use todos::edit::edit_field;
use todos::key::Key;

fn code(c: char) -> Key {
    Key::Code(c as i32)
}

fn press_all(buffer: &mut String, cursor: &mut usize, keys: &[Key]) {
    for key in keys {
        edit_field(buffer, cursor, *key);
    }
}

#[test]
fn typing_into_an_empty_buffer_appends_and_advances() {
    let mut buffer = String::new();
    let mut cursor = 0;
    assert!(edit_field(&mut buffer, &mut cursor, code('h')));
    assert!(edit_field(&mut buffer, &mut cursor, code('i')));
    assert_eq!(buffer, "hi");
    assert_eq!(cursor, 2);
}

#[test]
fn backspace_at_offset_zero_changes_nothing() {
    let mut buffer = String::from("abc");
    let mut cursor = 0;
    assert!(edit_field(&mut buffer, &mut cursor, Key::Backspace));
    assert_eq!(buffer, "abc");
    assert_eq!(cursor, 0);

    let mut empty = String::new();
    assert!(edit_field(&mut empty, &mut cursor, Key::Backspace));
    assert_eq!(empty, "");
    assert_eq!(cursor, 0);
}

#[test]
fn a_printable_key_is_inserted_at_the_cursor() {
    let mut buffer = String::from("mlk");
    let mut cursor = 1;
    assert!(edit_field(&mut buffer, &mut cursor, code('i')));
    assert_eq!(buffer, "milk");
    assert_eq!(cursor, 2);
}

#[test]
fn the_whole_visible_range_is_printable_and_nothing_else() {
    for value in [0x20, 0x21, 0x2C, 0x41, 0x7A, 0x7E] {
        let mut buffer = String::from("ab");
        let mut cursor = 1;
        assert!(edit_field(&mut buffer, &mut cursor, Key::Code(value)));
        let expected: String = vec!['a', value as u8 as char, 'b'].into_iter().collect();
        assert_eq!(buffer, expected);
        assert_eq!(cursor, 2);
    }
    for value in [-1, 0, 9, 10, 13, 27, 0x1F, 0x7F, 0x80, 0xE9, 260, 330, 362, i32::MAX, i32::MIN] {
        let mut buffer = String::from("ab");
        let mut cursor = 1;
        assert!(!edit_field(&mut buffer, &mut cursor, Key::Code(value)));
        assert_eq!(buffer, "ab");
        assert_eq!(cursor, 1);
    }
}

#[test]
fn a_cursor_beyond_the_end_is_brought_back_before_the_key() {
    let mut buffer = String::from("ab");
    let mut cursor = 17;
    assert!(edit_field(&mut buffer, &mut cursor, code('c')));
    assert_eq!(buffer, "abc");
    assert_eq!(cursor, 3);

    let mut cursor = usize::MAX;
    assert!(edit_field(&mut buffer, &mut cursor, Key::Left));
    assert_eq!(cursor, 2);

    let mut cursor = 9;
    assert!(edit_field(&mut buffer, &mut cursor, Key::Backspace));
    assert_eq!(buffer, "ab");
    assert_eq!(cursor, 2);
}

#[test]
fn a_key_that_is_not_taken_still_brings_the_cursor_back() {
    let mut buffer = String::from("ab");
    let mut cursor = 5;
    assert!(!edit_field(&mut buffer, &mut cursor, Key::Code(10)));
    assert_eq!(buffer, "ab");
    assert_eq!(cursor, 2);
}

#[test]
fn the_arrows_stop_at_both_ends() {
    let mut buffer = String::from("ab");
    let mut cursor = 0;
    assert!(edit_field(&mut buffer, &mut cursor, Key::Left));
    assert_eq!(cursor, 0);
    assert!(edit_field(&mut buffer, &mut cursor, Key::Right));
    assert_eq!(cursor, 1);
    assert!(edit_field(&mut buffer, &mut cursor, Key::Right));
    assert_eq!(cursor, 2);
    assert!(edit_field(&mut buffer, &mut cursor, Key::Right));
    assert_eq!(cursor, 2);
    assert!(edit_field(&mut buffer, &mut cursor, Key::Left));
    assert_eq!(cursor, 1);
    assert_eq!(buffer, "ab");
}

#[test]
fn backspace_removes_the_character_before_the_cursor() {
    let mut buffer = String::from("abc");
    let mut cursor = 2;
    assert!(edit_field(&mut buffer, &mut cursor, Key::Backspace));
    assert_eq!(buffer, "ac");
    assert_eq!(cursor, 1);
    assert!(edit_field(&mut buffer, &mut cursor, Key::Backspace));
    assert_eq!(buffer, "c");
    assert_eq!(cursor, 0);
}

#[test]
fn delete_removes_the_character_at_the_cursor_and_stays() {
    let mut buffer = String::from("abc");
    let mut cursor = 1;
    assert!(edit_field(&mut buffer, &mut cursor, Key::Delete));
    assert_eq!(buffer, "ac");
    assert_eq!(cursor, 1);
    assert!(edit_field(&mut buffer, &mut cursor, Key::Delete));
    assert_eq!(buffer, "a");
    assert_eq!(cursor, 1);
    assert!(edit_field(&mut buffer, &mut cursor, Key::Delete));
    assert_eq!(buffer, "a");
    assert_eq!(cursor, 1);
}

#[test]
fn positions_count_characters_not_bytes() {
    let mut buffer = String::from("h\u{e9}llo \u{4e16}\u{754c}");
    let mut cursor = 2;
    assert!(edit_field(&mut buffer, &mut cursor, code('x')));
    assert_eq!(buffer, "h\u{e9}xllo \u{4e16}\u{754c}");
    assert_eq!(cursor, 3);

    let mut cursor = 100;
    assert!(edit_field(&mut buffer, &mut cursor, Key::Backspace));
    assert_eq!(buffer, "h\u{e9}xllo \u{4e16}");
    assert_eq!(cursor, 8);

    let mut cursor = 1;
    assert!(edit_field(&mut buffer, &mut cursor, Key::Delete));
    assert_eq!(buffer, "hxllo \u{4e16}");
    assert_eq!(cursor, 1);
}

#[test]
fn a_longer_edit_ends_where_it_should() {
    let mut buffer = String::new();
    let mut cursor = 0;
    press_all(
        &mut buffer,
        &mut cursor,
        &[
            code('B'),
            code('u'),
            code('y'),
            code(' '),
            code('m'),
            code('l'),
            code('k'),
            Key::Left,
            Key::Left,
            code('i'),
            Key::Right,
            Key::Right,
            Key::Right,
            code('!'),
            Key::Backspace,
        ],
    );
    assert_eq!(buffer, "Buy milk");
    assert_eq!(cursor, 8);
}
