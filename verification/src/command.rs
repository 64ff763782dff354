//! Command bytes of the display's serial protocol.
//!
//! A byte in `0x00..=0x0F` is no command: the display shows it as one
//! hexadecimal digit at the cursor and moves the cursor one column on.

use vstd::prelude::*;

verus! {

/// Blanks the display and moves the cursor to the leftmost column.
pub const CLEAR_DISPLAY: u8 = 0x76;

/// Followed by a mask: switches dots, colon and apostrophe.
pub const DECIMAL_CTL: u8 = 0x77;

/// Followed by a column `0..=3`: moves the cursor.
pub const CURSOR_CTL: u8 = 0x79;

/// Followed by a level: sets the brightness.
pub const BRIGHTNESS_CTL: u8 = 0x7A;

/// Followed by a segment mask for the first digit.
pub const DIGIT_1_CTL: u8 = 0x7B;

/// Followed by a segment mask for the second digit.
pub const DIGIT_2_CTL: u8 = 0x7C;

/// Followed by a segment mask for the third digit.
pub const DIGIT_3_CTL: u8 = 0x7D;

/// Followed by a segment mask for the fourth digit.
pub const DIGIT_4_CTL: u8 = 0x7E;

/// Followed by a rate code: reconfigures the UART baud rate.
pub const BAUD_RATE_CFG: u8 = 0x7F;

/// Followed by an address: reconfigures the I2C address of the display.
pub const I2C_ADDR_CFG: u8 = 0x80;

/// Restores the factory settings.
pub const FACTORY_RESET: u8 = 0x81;

} // verus!
