//! What the driver asks of the hardware.
//!
//! The driver never touches a peripheral itself. It is handed a bus, and for
//! SPI a chip-select line, and asks them to write bytes or to change level.
//! These traits name those requests.
//!
//! Each trait has the shape of the `embedded-hal` trait of the same purpose,
//! so that a peripheral of that crate fits behind it call for call.
//!
//! # What is taken on trust
//!
//! Every handle has a history: the requests it has been asked for, oldest
//! first, each with what the handle returned. A request adds itself and its
//! result to the end of the history, and changes nothing else of it. That is
//! all these traits promise, and it is promised, not proved: the
//! implementations are drivers outside this crate that Verus never reads.
//! Every implementation can keep the promise, since the history is only what
//! was asked and what came back. Nothing is promised of what the hardware did
//! with a request, nor of whether a request succeeds.
//!
//! The history is a specification function. It is never run; an
//! implementation in plain Rust gives it a body that cannot be reached.

use vstd::prelude::*;

verus! {

/// One write that an I2C bus was asked for, and what the bus returned.
pub struct AddressedWrite<E> {
    /// The device address that the write went to.
    pub address: u8,
    /// The bytes of the write.
    pub payload: Seq<u8>,
    /// What the bus returned.
    pub outcome: Result<(), E>,
}

/// One write that an SPI bus was asked for, and what the bus returned.
pub struct PlainWrite<E> {
    /// The bytes of the write.
    pub payload: Seq<u8>,
    /// What the bus returned.
    pub outcome: Result<(), E>,
}

/// One level that an output pin was asked to drive, and what the pin returned.
pub struct LevelRequest<E> {
    /// Whether the pin was asked to go high, and not low.
    pub high: bool,
    /// What the pin returned.
    pub outcome: Result<(), E>,
}

/// The history of an I2C bus whose error is `E`.
pub type I2cHistory<E> = Seq<AddressedWrite<E>>;

/// The history of an SPI bus whose error is `E`.
pub type SpiHistory<E> = Seq<PlainWrite<E>>;

/// The history of an output pin whose error is `E`.
pub type PinHistory<E> = Seq<LevelRequest<E>>;

/// An I2C master that writes to a device with a 7-bit address and waits for
/// the end of the write.
pub trait I2cWrite {
    /// What the bus reports when a write fails.
    type Error;

    /// The writes that the bus has been asked for, oldest first.
    spec fn asked(&self) -> I2cHistory<Self::Error>;

    /// One addressed write: start, `address` with the write bit, `bytes` in
    /// order, stop.
    fn write(&mut self, address: u8, bytes: &[u8]) -> (r: Result<(), Self::Error>)
        ensures
            final(self).asked() == old(self).asked().push(
                AddressedWrite { address, payload: bytes@, outcome: r },
            ),
    ;
}

/// An SPI master that shifts bytes out, ignores what comes in, and waits for
/// the end of the write.
pub trait SpiWrite {
    /// What the bus reports when a write fails.
    type Error;

    /// The writes that the bus has been asked for, oldest first.
    spec fn asked(&self) -> SpiHistory<Self::Error>;

    /// Shifts `words` out in order.
    fn write(&mut self, words: &[u8]) -> (r: Result<(), Self::Error>)
        ensures
            final(self).asked() == old(self).asked().push(
                PlainWrite { payload: words@, outcome: r },
            ),
    ;
}

/// A push-pull digital output.
pub trait OutputPin {
    /// What the pin reports when it cannot be driven.
    type Error;

    /// The levels that the pin has been asked to drive, oldest first.
    spec fn asked(&self) -> PinHistory<Self::Error>;

    /// Drives the pin low.
    fn set_low(&mut self) -> (r: Result<(), Self::Error>)
        ensures
            final(self).asked() == old(self).asked().push(
                LevelRequest { high: false, outcome: r },
            ),
    ;

    /// Drives the pin high.
    fn set_high(&mut self) -> (r: Result<(), Self::Error>)
        ensures
            final(self).asked() == old(self).asked().push(
                LevelRequest { high: true, outcome: r },
            ),
    ;
}

} // verus!
