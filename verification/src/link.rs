//! The bus and the chip-select line of a display on SPI, held together.
//!
//! The two have a history each, but no clock in common: from the histories
//! alone nobody could tell whether a write came before the line went high or
//! after. A link makes one request at a time and keeps one record of all of
//! them, in the order in which they were made. Each request adds one entry to
//! the history of the handle it was made of and the same entry to the record,
//! and nothing outside this module can add to the record. So the record of a
//! link is the order of its requests.

use vstd::prelude::*;
use crate::bus::{LevelRequest, OutputPin, PlainWrite, SpiWrite};
use crate::spi::SpiEvent;

verus! {

/// An SPI bus, the line that selects the display on it, and the record of
/// what both have been asked since the link was made.
pub(crate) struct SpiLink<SPIM: SpiWrite, CS: OutputPin> {
    spim: SPIM,
    csn: CS,
    log: Ghost<Seq<SpiEvent<SPIM::Error, CS::Error>>>,
}

impl<SPIM, CS> SpiLink<SPIM, CS> where SPIM: SpiWrite, CS: OutputPin {
    /// The bus of the link.
    pub(crate) closed spec fn bus(&self) -> SPIM {
        self.spim
    }

    /// The chip-select line of the link.
    pub(crate) closed spec fn line(&self) -> CS {
        self.csn
    }

    /// The requests made through the link, oldest first.
    pub(crate) closed spec fn events(&self) -> Seq<SpiEvent<SPIM::Error, CS::Error>> {
        self.log@
    }

    /// Makes a link, through which nothing has been asked yet.
    pub(crate) fn new(spim: SPIM, csn: CS) -> (r: Self)
        ensures
            r.bus() == spim,
            r.line() == csn,
            r.events() == Seq::<SpiEvent<SPIM::Error, CS::Error>>::empty(),
    {
        SpiLink { spim, csn, log: Ghost(Seq::empty()) }
    }

    /// Takes the link apart.
    pub(crate) fn into_parts(self) -> (r: (SPIM, CS))
        ensures
            r == (self.bus(), self.line()),
    {
        (self.spim, self.csn)
    }

    /// Asks the line to go low, which selects the display.
    pub(crate) fn select(&mut self) -> (r: Result<(), CS::Error>)
        ensures
            final(self).line().asked() == old(self).line().asked().push(
                LevelRequest { high: false, outcome: r },
            ),
            final(self).bus() == old(self).bus(),
            final(self).events() == old(self).events().push(SpiEvent::SelectLow(r)),
    {
        let r = self.csn.set_low();
        proof {
            self.log@ = self.log@.push(SpiEvent::SelectLow(r));
        }
        r
    }

    /// Asks the bus to write `words`.
    pub(crate) fn write(&mut self, words: &[u8]) -> (r: Result<(), SPIM::Error>)
        ensures
            final(self).bus().asked() == old(self).bus().asked().push(
                PlainWrite { payload: words@, outcome: r },
            ),
            final(self).line() == old(self).line(),
            final(self).events() == old(self).events().push(SpiEvent::Write(words@, r)),
    {
        let r = self.spim.write(words);
        proof {
            self.log@ = self.log@.push(SpiEvent::Write(words@, r));
        }
        r
    }

    /// Asks the line to go high, which lets the display go.
    pub(crate) fn let_go(&mut self) -> (r: Result<(), CS::Error>)
        ensures
            final(self).line().asked() == old(self).line().asked().push(
                LevelRequest { high: true, outcome: r },
            ),
            final(self).bus() == old(self).bus(),
            final(self).events() == old(self).events().push(SpiEvent::SelectHigh(r)),
    {
        let r = self.csn.set_high();
        proof {
            self.log@ = self.log@.push(SpiEvent::SelectHigh(r));
        }
        r
    }
}

} // verus!
