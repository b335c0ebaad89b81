//! The line editor: one text, one cursor, one key at a time.
//!
//! Positions count characters of the text, so the cursor of a text of `n`
//! characters ranges over `0..=n`.

use vstd::prelude::*;
use vstd::string::*;
use crate::key::{char_of, is_printable, Key};

verus! {

/// A text under edit and the cursor in it, as a mathematical value.
#[verifier::ext_equal]
pub struct EditState {
    pub text: Seq<char>,
    pub cursor: int,
}

impl EditState {
    /// The cursor stands on a character of the text or just behind the last one.
    pub open spec fn in_range(self) -> bool {
        0 <= self.cursor <= self.text.len()
    }

    /// The same text, with a cursor that lay outside it moved to the nearest
    /// end.
    pub open spec fn clamp(self) -> EditState {
        if self.cursor > self.text.len() {
            EditState { cursor: self.text.len() as int, ..self }
        } else if self.cursor < 0 {
            EditState { cursor: 0, ..self }
        } else {
            self
        }
    }

    /// What one key makes of a state whose cursor is in range.
    pub open spec fn apply(self, key: Key) -> EditState {
        match key {
            Key::Code(code) => if is_printable(code as int) {
                EditState {
                    text: self.text.insert(self.cursor, char_of(code)),
                    cursor: self.cursor + 1,
                }
            } else {
                self
            },
            Key::Left => if self.cursor > 0 {
                EditState { cursor: self.cursor - 1, ..self }
            } else {
                self
            },
            Key::Right => if self.cursor < self.text.len() {
                EditState { cursor: self.cursor + 1, ..self }
            } else {
                self
            },
            Key::Backspace => if self.cursor > 0 {
                EditState { text: self.text.remove(self.cursor - 1), cursor: self.cursor - 1 }
            } else {
                self
            },
            Key::Delete => if self.cursor < self.text.len() {
                EditState { text: self.text.remove(self.cursor), ..self }
            } else {
                self
            },
        }
    }

    /// What one key makes of any state: the cursor is brought into range
    /// first, then the key is applied.
    pub open spec fn press(self, key: Key) -> EditState {
        self.clamp().apply(key)
    }
}

/// Whatever the key and wherever the cursor was, after the key the cursor
/// stands in the text.
pub proof fn lemma_press_leaves_cursor_in_range(state: EditState, key: Key)
    ensures
        state.clamp().in_range(),
        state.press(key).in_range(),
{
}

/// A key that the editor does not understand changes nothing, but that a
/// cursor outside the text is brought back into it.
pub proof fn lemma_unknown_key_changes_nothing(state: EditState, key: Key)
    requires
        !key.is_edit_key(),
    ensures
        state.press(key) == state.clamp(),
        state.in_range() ==> state.press(key) == state,
{
}

/// The arrows move the cursor and leave the text alone.
pub proof fn lemma_arrows_keep_the_text(state: EditState)
    ensures
        state.press(Key::Left).text == state.text,
        state.press(Key::Right).text == state.text,
{
}

/// Backspace undoes the character that was typed last.
pub proof fn lemma_backspace_undoes_typing(state: EditState, code: i32)
    requires
        is_printable(code as int),
    ensures
        state.press(Key::Code(code)).press(Key::Backspace) == state.clamp(),
{
}

/// Typing adds one character and erasing takes one away, where there is one
/// to take.
pub proof fn lemma_length_after_a_key(state: EditState, key: Key)
    ensures
        match key {
            Key::Code(code) => state.press(key).text.len() == state.text.len() + if is_printable(
                code as int,
            ) {
                1int
            } else {
                0int
            },
            Key::Left | Key::Right => state.press(key).text.len() == state.text.len(),
            Key::Backspace => state.press(key).text.len() == state.text.len() - if state.clamp().cursor
                > 0 {
                1int
            } else {
                0int
            },
            Key::Delete => state.press(key).text.len() == state.text.len() - if state.clamp().cursor
                < state.text.len() {
                1int
            } else {
                0int
            },
        },
{
}

/// `String::push` of std: the character is added behind the last one, and
/// nothing else changes.
#[verifier::external_body]
fn push_char(text: &mut String, c: char)
    ensures
        final(text)@ == old(text)@.push(c),
{
    text.push(c)
}

/// Puts `c` in front of the character at `at`, or behind the last one where
/// `at` is the length. Returns the position behind `c`.
fn insert_char(text: &mut String, at: usize, c: char) -> (next: usize)
    requires
        at <= old(text)@.len(),
    ensures
        final(text)@ == old(text)@.insert(at as int, c),
        next == at + 1,
{
    let old_len = text.as_str().unicode_len();
    let mut out = text.as_str().substring_char(0, at).to_owned();
    push_char(&mut out, c);
    out.append(text.as_str().substring_char(at, old_len));
    *text = out;
    text.as_str().unicode_len() - (old_len - at)
}

/// Takes out the character at `at`.
fn remove_char(text: &mut String, at: usize)
    requires
        at < old(text)@.len(),
    ensures
        final(text)@ == old(text)@.remove(at as int),
{
    let old_len = text.as_str().unicode_len();
    let mut out = text.as_str().substring_char(0, at).to_owned();
    out.append(text.as_str().substring_char(at + 1, old_len));
    *text = out;
}

/// Lets the editor handle one key.
///
/// The cursor is first brought into the text, whatever the key. A printable
/// character is inserted at the cursor, which moves behind it; the arrows move
/// the cursor by one within the text; backspace erases the character before
/// the cursor and delete the one at it. The result says whether the key was
/// one of these: any other key changes nothing more and is left to the caller.
pub fn edit_field(buffer: &mut String, cursor: &mut usize, key: Key) -> (consumed: bool)
    ensures
        consumed == key.is_edit_key(),
        (EditState { text: final(buffer)@, cursor: *final(cursor) as int }) == (EditState {
            text: old(buffer)@,
            cursor: *old(cursor) as int,
        }).press(key),
        *final(cursor) <= final(buffer)@.len(),
{
    let len = buffer.as_str().unicode_len();
    if *cursor > len {
        *cursor = len;
    }
    match key {
        Key::Code(code) => {
            if 0x20 <= code && code <= 0x7E {
                *cursor = insert_char(buffer, *cursor, code as u8 as char);
                true
            } else {
                false
            }
        },
        Key::Left => {
            if *cursor > 0 {
                *cursor = *cursor - 1;
            }
            true
        },
        Key::Right => {
            if *cursor < len {
                *cursor = *cursor + 1;
            }
            true
        },
        Key::Backspace => {
            if *cursor > 0 {
                *cursor = *cursor - 1;
                remove_char(buffer, *cursor);
            }
            true
        },
        Key::Delete => {
            if *cursor < len {
                remove_char(buffer, *cursor);
            }
            true
        },
    }
}

} // verus!
