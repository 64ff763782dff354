//! Driver for a four-digit serial seven-segment display.
//!
//! The display takes a stream of bytes over I2C or SPI. The commands are
//! written once, as the provided methods of [`SevenSegInterface`], in terms of the
//! one operation that a transport supplies: [`SevenSegInterface::send`]. The
//! modules [`i2c`] and [`spi`] hold the two transports.

use vstd::prelude::*;

pub mod bus;
pub mod command;
pub mod device;
pub mod flags;
pub mod i2c;
mod link;
pub mod spi;

pub use crate::flags::PunctuationFlags;

verus! {

/// What a display operation can fail with.
#[derive(Debug, PartialEq, Eq)]
pub enum Error<I> {
    /// The transport failed; the value is the transport's own error.
    Interface(I),
    /// A column that the display does not have, or more digits than it has columns.
    CursorOutOfRange,
    /// A value that is no single hexadecimal digit, or a number of more than four digits.
    DigitOutOfRange,
}

/// The bytes that move the cursor to column `col`.
pub open spec fn cursor_frame(col: u8) -> Seq<u8> {
    seq![command::CURSOR_CTL, col]
}

/// The bytes that set the brightness to `level`.
pub open spec fn brightness_frame(level: u8) -> Seq<u8> {
    seq![command::BRIGHTNESS_CTL, level]
}

/// The bytes that blank the display.
pub open spec fn clear_frame() -> Seq<u8> {
    seq![command::CLEAR_DISPLAY]
}

/// The bytes that switch the punctuation to `mask`.
pub open spec fn punctuation_frame(mask: u8) -> Seq<u8> {
    seq![command::DECIMAL_CTL, mask]
}

/// Whether every element of `digits` is a single hexadecimal digit.
pub open spec fn all_nibbles(digits: Seq<u8>) -> bool {
    forall|i: int| 0 <= i < digits.len() ==> digits[i] <= 0x0F
}

/// The four decimal digits of `n`, most significant first.
pub open spec fn number_frame(n: u16) -> Seq<u8> {
    seq![(n / 1000) as u8, ((n / 100) % 10) as u8, ((n / 10) % 10) as u8, (n % 10) as u8]
}

/// The digits of a number that the display can show are decimal digits, so
/// each is a nibble that the display takes, and together they are worth the
/// number.
pub proof fn lemma_number_frame_is_decimal(n: u16)
    requires
        n <= 9999,
    ensures
        number_frame(n).len() == 4,
        forall|i: int| 0 <= i < 4 ==> number_frame(n)[i] <= 9,
        all_nibbles(number_frame(n)),
        1000 * number_frame(n)[0] + 100 * number_frame(n)[1] + 10 * number_frame(n)[2]
            + number_frame(n)[3] == n,
{
    assert(n / 1000 <= 9 && (n / 100) % 10 <= 9 && (n / 10) % 10 <= 9 && n % 10 <= 9)
        by (bit_vector)
        requires
            n <= 9999,
    ;
    assert(1000 * (n / 1000) + 100 * ((n / 100) % 10) + 10 * ((n / 10) % 10) + n % 10 == n)
        by (bit_vector);
}

/// Splits `num` into the digits of [`number_frame`].
pub fn decimal_digits(num: u16) -> (r: [u8; 4])
    ensures
        r@ == number_frame(num),
{
    let thousands: u16 = num / 1000;
    let hundreds: u16 = (num % 1000) / 100;
    let tens: u16 = (num % 100) / 10;
    let ones: u16 = num % 10;
    assert(num / 1000 <= 65 && (num % 1000) / 100 <= 9 && (num % 100) / 10 <= 9 && num % 10 <= 9)
        by (bit_vector);
    assert((num % 1000) / 100 == (num / 100) % 10) by (bit_vector);
    assert((num % 100) / 10 == (num / 10) % 10) by (bit_vector);
    let r: [u8; 4] = [thousands as u8, hundreds as u8, tens as u8, ones as u8];
    assert(r@ =~= number_frame(num));
    r
}

/// What one attempt to send `frame` may make of the transfers `before`.
///
/// On success the frame has been handed to the bus. On failure the transport
/// may have given up before it reached the bus or after.
pub open spec fn one_transfer<I>(
    before: Seq<Seq<u8>>,
    frame: Seq<u8>,
    after: Seq<Seq<u8>>,
    r: Result<(), Error<I>>,
) -> bool {
    match r {
        Ok(_) => after == before.push(frame),
        Err(Error::Interface(_)) => after == before || after == before.push(frame),
        Err(_) => false,
    }
}

/// What an attempt to send `first` and, if that went well, `second` may make
/// of the transfers `before`.
pub open spec fn two_transfers<I>(
    before: Seq<Seq<u8>>,
    first: Seq<u8>,
    second: Seq<u8>,
    after: Seq<Seq<u8>>,
    r: Result<(), Error<I>>,
) -> bool {
    match r {
        Ok(_) => after == before.push(first).push(second),
        Err(Error::Interface(_)) => {
            ||| after == before
            ||| after == before.push(first)
            ||| after == before.push(first).push(second)
        },
        Err(_) => false,
    }
}

/// A transport to the display, and the display's commands on top of it.
///
/// An implementation supplies [`send`](Self::send) and says, with
/// [`sends`](Self::sends), what a call of it does to the transport. Every
/// command checks its arguments, and then is one call of `send` (two for
/// [`set_num`](Self::set_num)) with the bytes that the protocol fixes.
pub trait SevenSegInterface {
    /// The error of the transport itself.
    type InterfaceError;

    /// The payloads that the bus of the transport has been asked to carry,
    /// oldest first.
    spec fn transfers(&self) -> Seq<Seq<u8>>;

    /// Whether sending `data` can take the transport from `self` to `after`
    /// and return `r`.
    spec fn sends(
        &self,
        data: Seq<u8>,
        after: &Self,
        r: Result<(), Error<Self::InterfaceError>>,
    ) -> bool;

    /// Delivers `data` to the display as one transfer.
    fn send(&mut self, data: &[u8]) -> (r: Result<(), Error<Self::InterfaceError>>)
        ensures
            old(self).sends(data@, final(self), r),
            one_transfer(old(self).transfers(), data@, final(self).transfers(), r),
    ;

    /// Moves the cursor to column `col`, counted from the left, `0..=3`.
    ///
    /// A column that the display does not have is refused before anything is sent.
    fn set_cursor(&mut self, col: u8) -> (r: Result<(), Error<Self::InterfaceError>>)
        ensures
            col >= 4 ==> r == Err::<(), Error<Self::InterfaceError>>(Error::CursorOutOfRange)
                && &*final(self) == &*old(self),
            col < 4 ==> old(self).sends(cursor_frame(col), final(self), r),
            col < 4 ==> one_transfer(
                old(self).transfers(),
                cursor_frame(col),
                final(self).transfers(),
                r,
            ),
    {
        if col >= 4 {
            return Err(Error::CursorOutOfRange);
        }
        let frame: [u8; 2] = [command::CURSOR_CTL, col];
        assert(frame@ =~= cursor_frame(col));
        self.send(&frame)
    }

    /// Sets the brightness. The data sheet names 100 as the brightest level;
    /// the display takes every value, so none is refused.
    fn set_brightness(&mut self, bright: u8) -> (r: Result<(), Error<Self::InterfaceError>>)
        ensures
            old(self).sends(brightness_frame(bright), final(self), r),
            one_transfer(
                old(self).transfers(),
                brightness_frame(bright),
                final(self).transfers(),
                r,
            ),
    {
        let frame: [u8; 2] = [command::BRIGHTNESS_CTL, bright];
        assert(frame@ =~= brightness_frame(bright));
        self.send(&frame)
    }

    /// Blanks the display.
    fn clear(&mut self) -> (r: Result<(), Error<Self::InterfaceError>>)
        ensures
            old(self).sends(clear_frame(), final(self), r),
            one_transfer(old(self).transfers(), clear_frame(), final(self).transfers(), r),
    {
        let frame: [u8; 1] = [command::CLEAR_DISPLAY];
        assert(frame@ =~= clear_frame());
        self.send(&frame)
    }

    /// Writes one hexadecimal digit at the cursor; the display then moves the
    /// cursor one column on.
    ///
    /// A value above `0x0F` is refused before anything is sent.
    fn write_digit(&mut self, digit: u8) -> (r: Result<(), Error<Self::InterfaceError>>)
        ensures
            digit > 0x0F ==> r == Err::<(), Error<Self::InterfaceError>>(Error::DigitOutOfRange)
                && &*final(self) == &*old(self),
            digit <= 0x0F ==> old(self).sends(seq![digit], final(self), r),
            digit <= 0x0F ==> one_transfer(
                old(self).transfers(),
                seq![digit],
                final(self).transfers(),
                r,
            ),
    {
        if digit > 0x0F {
            return Err(Error::DigitOutOfRange);
        }
        let frame: [u8; 1] = [digit];
        assert(frame@ =~= seq![digit]);
        self.send(&frame)
    }

    /// Switches the punctuation to exactly the marks of `punct_flags`: a mark
    /// that is not in the set goes off.
    fn write_punctuation(&mut self, punct_flags: PunctuationFlags) -> (r: Result<
        (),
        Error<Self::InterfaceError>,
    >)
        ensures
            punct_flags@ & flags::RESERVED == 0,
            old(self).sends(punctuation_frame(punct_flags@), final(self), r),
            one_transfer(
                old(self).transfers(),
                punctuation_frame(punct_flags@),
                final(self).transfers(),
                r,
            ),
    {
        let frame: [u8; 2] = [command::DECIMAL_CTL, punct_flags.bits()];
        assert(frame@ =~= punctuation_frame(punct_flags@));
        self.send(&frame)
    }

    /// Writes up to four hexadecimal digits, starting at the cursor.
    ///
    /// More than four digits, or a value above `0x0F` among them, are refused
    /// before anything is sent.
    fn write_digits(&mut self, digits: &[u8]) -> (r: Result<(), Error<Self::InterfaceError>>)
        ensures
            digits@.len() > 4 ==> r == Err::<(), Error<Self::InterfaceError>>(
                Error::CursorOutOfRange,
            ) && &*final(self) == &*old(self),
            digits@.len() <= 4 && !all_nibbles(digits@) ==> r == Err::<
                (),
                Error<Self::InterfaceError>,
            >(Error::DigitOutOfRange) && &*final(self) == &*old(self),
            digits@.len() <= 4 && all_nibbles(digits@) ==> old(self).sends(
                digits@,
                final(self),
                r,
            ),
            digits@.len() <= 4 && all_nibbles(digits@) ==> one_transfer(
                old(self).transfers(),
                digits@,
                final(self).transfers(),
                r,
            ),
    {
        if digits.len() > 4 {
            return Err(Error::CursorOutOfRange);
        }
        let mut i: usize = 0;
        while i < digits.len()
            invariant
                i <= digits@.len() <= 4,
                forall|j: int| 0 <= j < i ==> digits@[j] <= 0x0F,
                &*self == &*old(self),
            decreases digits@.len() - i,
        {
            if digits[i] > 0x0F {
                return Err(Error::DigitOutOfRange);
            }
            i += 1;
        }
        self.send(digits)
    }

    /// Shows `num` in decimal, with leading zeros, and leaves the cursor in
    /// the leftmost column.
    ///
    /// A number above 9999 is refused before anything is sent. Otherwise the
    /// cursor is moved to the leftmost column, and if that went well the four
    /// digits are written; nothing is undone if the second step fails.
    fn set_num(&mut self, num: u16) -> (r: Result<(), Error<Self::InterfaceError>>)
        ensures
            num > 9999 ==> r == Err::<(), Error<Self::InterfaceError>>(Error::DigitOutOfRange)
                && &*final(self) == &*old(self),
            num <= 9999 ==> exists|mid: &Self, first: Result<(), Error<Self::InterfaceError>>|
                {
                    &&& #[trigger] old(self).sends(cursor_frame(0), mid, first)
                    &&& first is Err ==> r == first && mid == &*final(self)
                    &&& first is Ok ==> mid.sends(number_frame(num), final(self), r)
                },
            num <= 9999 ==> two_transfers(
                old(self).transfers(),
                cursor_frame(0),
                number_frame(num),
                final(self).transfers(),
                r,
            ),
    {
        if num > 9999 {
            return Err(Error::DigitOutOfRange);
        }
        let first = self.set_cursor(0);
        let ghost mid = &*self;
        match first {
            Ok(()) => {},
            Err(e) => {
                return Err(e);
            },
        }
        let data: [u8; 4] = decimal_digits(num);
        let r = self.send(&data);
        assert(old(self).sends(cursor_frame(0), mid, first));
        r
    }
}

} // verus!
