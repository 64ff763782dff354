//! What the display makes of the bytes it takes, as far as the cursor goes.
//!
//! The driver keeps no copy of the display's state. This model says where the
//! display's cursor stands after each frame that the commands send, so that
//! what a command promises of the cursor can be stated and proved.

use vstd::prelude::*;
use crate::{
    all_nibbles, brightness_frame, clear_frame, cursor_frame, number_frame, punctuation_frame,
};

verus! {

/// The number of columns of the display.
pub const COLUMNS: u8 = 4;

/// The column of the cursor, once the display, with its cursor in column
/// `cursor`, has taken `frame`.
///
/// Blanking the display takes the cursor to the leftmost column. A cursor
/// command takes it to the column it names. Every digit moves it one column
/// to the right, and from the rightmost column back to the leftmost. Other
/// frames that the commands send leave it where it is.
pub open spec fn cursor_after(cursor: int, frame: Seq<u8>) -> int {
    if frame == clear_frame() {
        0
    } else if frame.len() == 2 && frame == cursor_frame(frame[1]) && frame[1] < COLUMNS {
        frame[1] as int
    } else if all_nibbles(frame) {
        (cursor + frame.len()) % (COLUMNS as int)
    } else {
        cursor
    }
}

/// Blanking the display takes the cursor to the leftmost column.
pub proof fn lemma_clear_homes_cursor(cursor: int)
    ensures
        cursor_after(cursor, clear_frame()) == 0,
{
}

/// A cursor command with a column that the display has takes the cursor there.
pub proof fn lemma_cursor_command_moves_cursor(cursor: int, col: u8)
    requires
        col < COLUMNS,
    ensures
        cursor_after(cursor, cursor_frame(col)) == col,
{
    let frame = cursor_frame(col);
    assert(frame[0] == 0x79);
    assert(clear_frame().len() == 1);
    assert(frame == cursor_frame(frame[1]));
}

/// A digit moves the cursor one column to the right, and from the rightmost
/// column back to the leftmost.
pub proof fn lemma_digit_advances_cursor(cursor: int, digit: u8)
    requires
        0 <= cursor < COLUMNS,
        digit <= 0x0F,
    ensures
        cursor_after(cursor, seq![digit]) == if cursor == 3 {
            0
        } else {
            cursor + 1
        },
{
    let frame = seq![digit];
    assert(frame[0] == digit);
    assert(clear_frame()[0] == 0x76);
    assert(all_nibbles(frame));
}

/// Brightness and punctuation leave the cursor where it is.
pub proof fn lemma_settings_keep_cursor(cursor: int, value: u8)
    ensures
        cursor_after(cursor, brightness_frame(value)) == cursor,
        cursor_after(cursor, punctuation_frame(value)) == cursor,
{
    let b = brightness_frame(value);
    let p = punctuation_frame(value);
    assert(b[0] == 0x7A && p[0] == 0x77);
    assert(clear_frame().len() == 1);
    assert(cursor_frame(b[1])[0] == 0x79);
    assert(cursor_frame(p[1])[0] == 0x79);
    assert(!all_nibbles(b));
    assert(!all_nibbles(p));
}

/// Showing a number leaves the cursor in the leftmost column, wherever it
/// stood before: the cursor command takes it there, and the four digits take
/// it once around.
pub proof fn lemma_number_homes_cursor(cursor: int, n: u16)
    requires
        n <= 9999,
    ensures
        cursor_after(cursor_after(cursor, cursor_frame(0)), number_frame(n)) == 0,
{
    lemma_cursor_command_moves_cursor(cursor, 0);
    crate::lemma_number_frame_is_decimal(n);
    let frame = number_frame(n);
    assert(frame.len() == 4);
    assert(clear_frame().len() == 1);
    assert(frame[0] <= 9);
    assert(cursor_frame(frame[1])[0] == 0x79);
}

} // verus!
