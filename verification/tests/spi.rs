//! The SPI transport, observed through a bus and a chip-select line that
//! record into one trace what they are asked to do.

use sevseg::bus::{OutputPin, PinHistory, SpiHistory, SpiWrite};
use sevseg::spi::{settle, SevSegSpim, SpimError};
use sevseg::{Error, SevenSegInterface};
use std::cell::RefCell;
use std::rc::Rc;

/// One request, as the hardware saw it.
#[derive(Debug, PartialEq, Eq, Clone)]
enum Seen {
    Low,
    High,
    Write(Vec<u8>),
}

/// What the recording bus reports when it is told to fail.
#[derive(Debug, PartialEq, Eq, Clone, Copy)]
struct Overrun;

/// What the recording line reports when it is told to fail.
#[derive(Debug, PartialEq, Eq, Clone, Copy)]
enum Stuck {
    GoingLow,
    GoingHigh,
}

type Trace = Rc<RefCell<Vec<Seen>>>;

struct Bus {
    trace: Trace,
    fail: bool,
}

struct Line {
    trace: Trace,
    fail_low: bool,
    fail_high: bool,
}

impl SpiWrite for Bus {
    type Error = Overrun;

    fn asked(&self) -> SpiHistory<Overrun> {
        unreachable!("the history is for proofs and is never run")
    }

    fn write(&mut self, words: &[u8]) -> Result<(), Overrun> {
        self.trace.borrow_mut().push(Seen::Write(words.to_vec()));
        if self.fail {
            Err(Overrun)
        } else {
            Ok(())
        }
    }
}

impl OutputPin for Line {
    type Error = Stuck;

    fn asked(&self) -> PinHistory<Stuck> {
        unreachable!("the history is for proofs and is never run")
    }

    fn set_low(&mut self) -> Result<(), Stuck> {
        self.trace.borrow_mut().push(Seen::Low);
        if self.fail_low {
            Err(Stuck::GoingLow)
        } else {
            Ok(())
        }
    }

    fn set_high(&mut self) -> Result<(), Stuck> {
        self.trace.borrow_mut().push(Seen::High);
        if self.fail_high {
            Err(Stuck::GoingHigh)
        } else {
            Ok(())
        }
    }
}

fn rig(fail_write: bool, fail_low: bool, fail_high: bool) -> (SevSegSpim<Bus, Line>, Trace) {
    let trace: Trace = Rc::new(RefCell::new(Vec::new()));
    let bus = Bus { trace: trace.clone(), fail: fail_write };
    let line = Line { trace: trace.clone(), fail_low, fail_high };
    (SevSegSpim::new(bus, line), trace)
}

#[test]
fn a_send_is_low_write_high() {
    let (mut dev, trace) = rig(false, false, false);
    assert_eq!(dev.send(&[0x01, 0x02, 0x03]), Ok(()));
    assert_eq!(*trace.borrow(), vec![Seen::Low, Seen::Write(vec![0x01, 0x02, 0x03]), Seen::High]);
}

#[test]
fn every_send_is_framed_on_its_own() {
    let (mut dev, trace) = rig(false, false, false);
    assert_eq!(dev.clear(), Ok(()));
    assert_eq!(dev.set_num(42), Ok(()));
    assert_eq!(
        *trace.borrow(),
        vec![
            Seen::Low,
            Seen::Write(vec![0x76]),
            Seen::High,
            Seen::Low,
            Seen::Write(vec![0x79, 0x00]),
            Seen::High,
            Seen::Low,
            Seen::Write(vec![0, 0, 4, 2]),
            Seen::High,
        ]
    );
}

#[test]
fn a_failed_write_still_lets_the_display_go() {
    let (mut dev, trace) = rig(true, false, false);
    assert_eq!(dev.clear(), Err(Error::Interface(SpimError::Spim(Overrun))));
    assert_eq!(*trace.borrow(), vec![Seen::Low, Seen::Write(vec![0x76]), Seen::High]);
}

#[test]
fn a_display_that_cannot_be_selected_is_not_written_to() {
    let (mut dev, trace) = rig(false, true, false);
    assert_eq!(dev.clear(), Err(Error::Interface(SpimError::Gpio(Stuck::GoingLow))));
    assert_eq!(*trace.borrow(), vec![Seen::Low]);
}

#[test]
fn a_line_stuck_both_ways_reports_the_first_failure() {
    let (mut dev, trace) = rig(true, true, true);
    assert_eq!(dev.send(&[0x05]), Err(Error::Interface(SpimError::Gpio(Stuck::GoingLow))));
    assert_eq!(*trace.borrow(), vec![Seen::Low]);
}

#[test]
fn a_display_that_cannot_be_let_go_is_what_comes_back() {
    let (mut dev, trace) = rig(false, false, true);
    assert_eq!(dev.send(&[0x05]), Err(Error::Interface(SpimError::Gpio(Stuck::GoingHigh))));
    assert_eq!(*trace.borrow(), vec![Seen::Low, Seen::Write(vec![0x05]), Seen::High]);
}

#[test]
fn a_line_that_cannot_be_let_go_outranks_a_failed_write() {
    let (mut dev, trace) = rig(true, false, true);
    assert_eq!(dev.send(&[0x05]), Err(Error::Interface(SpimError::Gpio(Stuck::GoingHigh))));
    assert_eq!(*trace.borrow(), vec![Seen::Low, Seen::Write(vec![0x05]), Seen::High]);
}

#[test]
fn a_refused_command_touches_neither_bus_nor_line() {
    let (mut dev, trace) = rig(false, false, false);
    assert_eq!(dev.set_cursor(4), Err(Error::CursorOutOfRange));
    assert_eq!(dev.write_digit(0x10), Err(Error::DigitOutOfRange));
    assert_eq!(dev.set_num(10000), Err(Error::DigitOutOfRange));
    assert!(trace.borrow().is_empty());
}

#[test]
fn set_num_stops_after_a_cursor_move_that_failed() {
    let (mut dev, trace) = rig(true, false, false);
    assert_eq!(dev.set_num(7), Err(Error::Interface(SpimError::Spim(Overrun))));
    assert_eq!(*trace.borrow(), vec![Seen::Low, Seen::Write(vec![0x79, 0x00]), Seen::High]);
}

#[test]
fn settle_ranks_the_line_above_the_bus() {
    assert_eq!(settle::<u8, u16>(Ok(()), Ok(())), Ok(()));
    assert_eq!(settle::<u8, u16>(Err(3), Ok(())), Err(Error::Interface(SpimError::Spim(3))));
    assert_eq!(settle::<u8, u16>(Ok(()), Err(4)), Err(Error::Interface(SpimError::Gpio(4))));
    assert_eq!(settle::<u8, u16>(Err(3), Err(4)), Err(Error::Interface(SpimError::Gpio(4))));
}

#[test]
fn release_gives_bus_and_line_back() {
    let (dev, trace) = rig(true, false, true);
    let (bus, line) = dev.release();
    assert!(bus.fail);
    assert!(!line.fail_low);
    assert!(line.fail_high);
    assert!(trace.borrow().is_empty());
}
