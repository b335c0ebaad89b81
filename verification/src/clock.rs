//! The time of creation that a new task gets: the local time, as a short text
//! such as `Jan 02 15:04:05`.

use vstd::prelude::*;
use crate::codec::{comma_free, storable};
use crate::task::TaskView;

verus! {

/// A decimal digit.
pub open spec fn is_digit(c: char) -> bool {
    '0' <= c <= '9'
}

/// A letter of the English alphabet.
pub open spec fn is_letter(c: char) -> bool {
    'a' <= c <= 'z' || 'A' <= c <= 'Z'
}

/// The shape of a time of creation: a month's name of three letters, the day
/// of the month, and hour, minute and second, each of two digits.
pub open spec fn is_timestamp(s: Seq<char>) -> bool {
    &&& s.len() == 15
    &&& is_letter(s[0]) && is_letter(s[1]) && is_letter(s[2])
    &&& s[3] == ' '
    &&& is_digit(s[4]) && is_digit(s[5])
    &&& s[6] == ' '
    &&& is_digit(s[7]) && is_digit(s[8])
    &&& s[9] == ':'
    &&& is_digit(s[10]) && is_digit(s[11])
    &&& s[12] == ':'
    &&& is_digit(s[13]) && is_digit(s[14])
}

/// A time of creation holds no separator of the line format.
pub proof fn lemma_timestamp_is_comma_free(s: Seq<char>)
    requires
        is_timestamp(s),
    ensures
        comma_free(s),
{
}

/// A task as it is first created can be stored and read back.
pub proof fn lemma_fresh_task_is_storable(created_at: Seq<char>)
    requires
        is_timestamp(created_at),
    ensures
        storable(TaskView::fresh(created_at)),
{
    lemma_timestamp_is_comma_free(created_at);
}

/// The local time of this moment. `chrono::Local::now` reads the clock and
/// the time zone of the machine; `format` with `%b %d %H:%M:%S` and
/// `to_string` write it as the English short name of the month, the day, and
/// the time of day, the numbers padded with zeros to two digits.
///
/// Nothing is claimed of which time comes back, only of its shape. The call
/// panics where the clock of the machine stands before 1970.
#[verifier::external_body]
pub(crate) fn timestamp_now() -> (stamp: String)
    ensures
        is_timestamp(stamp@),
{
    chrono::Local::now().format("%b %d %H:%M:%S").to_string()
}

} // verus!
