use todos::key::Key;

#[test]
fn the_named_keys_are_read_from_their_curses_codes() {
    assert_eq!(Key::from_code(ncurses::KEY_LEFT), Some(Key::Left));
    assert_eq!(Key::from_code(ncurses::KEY_RIGHT), Some(Key::Right));
    assert_eq!(Key::from_code(ncurses::KEY_BACKSPACE), Some(Key::Backspace));
    assert_eq!(Key::from_code(ncurses::KEY_DC), Some(Key::Delete));
}

#[test]
fn the_named_keys_have_the_codes_that_the_contracts_state() {
    assert_eq!(Key::from_code(0x104), Some(Key::Left));
    assert_eq!(Key::from_code(0x105), Some(Key::Right));
    assert_eq!(Key::from_code(0x107), Some(Key::Backspace));
    assert_eq!(Key::from_code(0x14a), Some(Key::Delete));
    assert_eq!(Key::from_code(-1), None);
}

#[test]
fn no_key_is_no_key() {
    assert_eq!(Key::from_code(ncurses::ERR), None);
}

#[test]
fn every_other_code_keeps_its_number() {
    for code in [0, 10, 32, 97, 126, 127, 255, 256, 0x102, 0x103, 0x106, 0x108, 0x149, 0x14b, 0x157, 0x1ff, -2, i32::MAX, i32::MIN] {
        assert_eq!(Key::from_code(code), Some(Key::Code(code)), "{}", code);
    }
    assert_eq!(Key::from_code(ncurses::KEY_UP), Some(Key::Code(0x103)));
    assert_eq!(Key::from_code(ncurses::KEY_DOWN), Some(Key::Code(0x102)));
    assert_eq!(Key::from_code(ncurses::KEY_ENTER), Some(Key::Code(0x157)));
    assert_eq!(Key::from_code('j' as i32), Some(Key::Code(106)));
}
