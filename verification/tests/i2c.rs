//! The I2C transport, observed through a bus that records what it is asked to write.

use sevseg::bus::{I2cHistory, I2cWrite};
use sevseg::i2c::{bus_result, I2cError, SevSegI2c, DEFAULT_ADDRESS};
use sevseg::{Error, SevenSegInterface};

/// What the recording bus reports when it is told to fail.
#[derive(Debug, PartialEq, Eq, Clone, Copy)]
struct ArbitrationLost;

/// A bus that keeps every write it is asked for.
struct Recorder {
    writes: Vec<(u8, Vec<u8>)>,
    fail: bool,
}

impl Recorder {
    fn new() -> Self {
        Recorder { writes: Vec::new(), fail: false }
    }

    fn failing() -> Self {
        Recorder { writes: Vec::new(), fail: true }
    }

    fn addresses(&self) -> Vec<u8> {
        self.writes.iter().map(|w| w.0).collect()
    }
}

impl I2cWrite for Recorder {
    type Error = ArbitrationLost;

    fn asked(&self) -> I2cHistory<ArbitrationLost> {
        unreachable!("the history is for proofs and is never run")
    }

    fn write(&mut self, address: u8, bytes: &[u8]) -> Result<(), ArbitrationLost> {
        self.writes.push((address, bytes.to_vec()));
        if self.fail {
            Err(ArbitrationLost)
        } else {
            Ok(())
        }
    }
}

#[test]
fn the_default_address_is_0x71() {
    assert_eq!(DEFAULT_ADDRESS, 0x71);
    let mut dev = SevSegI2c::new(Recorder::new(), None);
    assert_eq!(dev.send(&[0x01]), Ok(()));
    assert_eq!(dev.release().writes, vec![(0x71, vec![0x01])]);
}

#[test]
fn a_given_address_is_used() {
    let mut dev = SevSegI2c::new(Recorder::new(), Some(0x23));
    assert_eq!(dev.send(&[0x01, 0x02]), Ok(()));
    assert_eq!(dev.release().writes, vec![(0x23, vec![0x01, 0x02])]);
}

#[test]
fn send_is_one_addressed_write_of_the_whole_slice() {
    let mut dev = SevSegI2c::new(Recorder::new(), None);
    assert_eq!(dev.send(&[9, 8, 7, 6, 5, 4, 3]), Ok(()));
    assert_eq!(dev.send(&[]), Ok(()));
    assert_eq!(dev.release().writes, vec![(0x71, vec![9, 8, 7, 6, 5, 4, 3]), (0x71, vec![])]);
}

#[test]
fn set_address_sends_nothing() {
    let mut dev = SevSegI2c::new(Recorder::new(), None);
    dev.set_address(0x50);
    dev.set_address(0x51);
    assert!(dev.release().writes.is_empty());
}

#[test]
fn set_address_changes_only_the_writes_that_follow() {
    let mut dev = SevSegI2c::new(Recorder::new(), None);
    assert_eq!(dev.clear(), Ok(()));
    dev.set_address(0x50);
    assert_eq!(dev.clear(), Ok(()));
    let bus = dev.release();
    assert_eq!(bus.addresses(), vec![0x71, 0x50]);
    assert_eq!(bus.writes, vec![(0x71, vec![0x76]), (0x50, vec![0x76])]);
}

#[test]
fn a_bus_error_comes_back_wrapped_and_unchanged() {
    let mut dev = SevSegI2c::new(Recorder::failing(), None);
    assert_eq!(dev.send(&[0x76]), Err(Error::Interface(I2cError::I2c(ArbitrationLost))));
    assert_eq!(dev.release().writes, vec![(0x71, vec![0x76])]);
}

#[test]
fn bus_result_keeps_success_and_wraps_failure() {
    assert_eq!(bus_result::<u8>(Ok(())), Ok(()));
    assert_eq!(bus_result(Err(7u8)), Err(Error::Interface(I2cError::I2c(7u8))));
    assert_eq!(bus_result(Err("nack")), Err(Error::Interface(I2cError::I2c("nack"))));
}

#[test]
fn release_gives_the_bus_back_as_it_is() {
    let dev = SevSegI2c::new(Recorder::new(), Some(0x10));
    let bus = dev.release();
    assert!(bus.writes.is_empty());
    assert!(!bus.fail);
}
