//! Keys: what the terminal reports, and what the list and the editor make of
//! it.
//!
//! The terminal reports a key as a number. A character comes as its own code;
//! the arrows, backspace and delete come as the codes that the curses library
//! has for them, above every character; and where no key was pressed in time,
//! it reports the code for "nothing".

use vstd::prelude::*;

verus! {

/// A key that was pressed.
#[derive(Clone, Copy, Debug, PartialEq, Eq, Structural)]
pub enum Key {
    /// A key without a name here, by its code: a character such as `'a'` (97),
    /// a control code such as line feed (10), or a key of the terminal that
    /// the editor does not know.
    Code(i32),
    /// The arrow to the left.
    Left,
    /// The arrow to the right.
    Right,
    /// Erases the character before the cursor.
    Backspace,
    /// Erases the character at the cursor.
    Delete,
}

/// The codes of the visible ASCII characters, space included.
pub open spec fn is_printable(code: int) -> bool {
    0x20 <= code <= 0x7E
}

/// The character that a printable code stands for.
pub open spec fn char_of(code: i32) -> char
    recommends
        is_printable(code as int),
{
    code as u8 as char
}

/// The code that is reported where no key was pressed.
pub open spec fn code_of_no_key() -> int {
    -1
}

/// The code of the arrow to the left.
pub open spec fn code_of_left() -> int {
    0x104
}

/// The code of the arrow to the right.
pub open spec fn code_of_right() -> int {
    0x105
}

/// The code of backspace.
pub open spec fn code_of_backspace() -> int {
    0x107
}

/// The code of delete.
pub open spec fn code_of_delete() -> int {
    0x14a
}

impl Key {
    /// The keys that the editor understands. It leaves every other key to its
    /// caller.
    pub open spec fn is_edit_key(self) -> bool {
        match self {
            Key::Code(code) => is_printable(code as int),
            _ => true,
        }
    }

    /// The key that a reported code stands for, if it stands for one.
    pub open spec fn of_code(code: int) -> Option<Key> {
        if code == code_of_no_key() {
            None
        } else if code == code_of_left() {
            Some(Key::Left)
        } else if code == code_of_right() {
            Some(Key::Right)
        } else if code == code_of_backspace() {
            Some(Key::Backspace)
        } else if code == code_of_delete() {
            Some(Key::Delete)
        } else {
            Some(Key::Code(code as i32))
        }
    }

    /// Reads the code that the terminal reported: no key at all, one of the
    /// four keys that have a name here, or a key that keeps its code.
    pub fn from_code(code: i32) -> (key: Option<Key>)
        ensures
            key == Key::of_code(code as int),
    {
        if code == no_key_code() {
            None
        } else if code == left_code() {
            Some(Key::Left)
        } else if code == right_code() {
            Some(Key::Right)
        } else if code == backspace_code() {
            Some(Key::Backspace)
        } else if code == delete_code() {
            Some(Key::Delete)
        } else {
            Some(Key::Code(code))
        }
    }
}

/// `ncurses::ERR`, which `getch` returns where no key arrived in time: -1.
#[verifier::external_body]
fn no_key_code() -> (code: i32)
    ensures
        code == code_of_no_key(),
{
    ncurses::ERR
}

/// `ncurses::KEY_LEFT`, the code of the arrow to the left: 0x104.
#[verifier::external_body]
fn left_code() -> (code: i32)
    ensures
        code == code_of_left(),
{
    ncurses::KEY_LEFT
}

/// `ncurses::KEY_RIGHT`, the code of the arrow to the right: 0x105.
#[verifier::external_body]
fn right_code() -> (code: i32)
    ensures
        code == code_of_right(),
{
    ncurses::KEY_RIGHT
}

/// `ncurses::KEY_BACKSPACE`, the code of backspace: 0x107.
#[verifier::external_body]
fn backspace_code() -> (code: i32)
    ensures
        code == code_of_backspace(),
{
    ncurses::KEY_BACKSPACE
}

/// `ncurses::KEY_DC`, the code of the key that deletes a character: 0x14a.
#[verifier::external_body]
fn delete_code() -> (code: i32)
    ensures
        code == code_of_delete(),
{
    ncurses::KEY_DC
}

} // verus!
