//! The display on an I2C bus.

use vstd::prelude::*;
use crate::bus::{AddressedWrite, I2cWrite};
use crate::{Error, SevenSegInterface};

verus! {

/// The 7-bit address that the display answers to as it leaves the factory.
pub const DEFAULT_ADDRESS: u8 = 0x71;

/// Why a transfer over I2C failed.
#[non_exhaustive]
#[derive(Debug, PartialEq, Eq)]
pub enum I2cError<I2C> {
    /// The bus reported a failure; the value is the bus's own error.
    I2c(I2C),
}

/// The payloads of the writes in `history`, in order.
pub open spec fn payloads<E>(history: Seq<AddressedWrite<E>>) -> Seq<Seq<u8>> {
    history.map_values(|w: AddressedWrite<E>| w.payload)
}

/// What a send returns for the outcome of its bus write: success as it is,
/// and the bus's error wrapped and otherwise untouched.
pub open spec fn bus_outcome<E>(outcome: Result<(), E>) -> Result<(), Error<I2cError<E>>> {
    match outcome {
        Ok(_) => Ok(()),
        Err(e) => Err(Error::Interface(I2cError::I2c(e))),
    }
}

/// Turns the outcome of a bus write into the result of a send.
pub fn bus_result<E>(outcome: Result<(), E>) -> (r: Result<(), Error<I2cError<E>>>)
    ensures
        r == bus_outcome(outcome),
{
    match outcome {
        Ok(()) => Ok(()),
        Err(e) => Err(Error::Interface(I2cError::I2c(e))),
    }
}

/// The display behind an I2C bus, which may run at 100 kHz or at 400 kHz.
///
/// The transport owns the bus and keeps the address that it writes to.
pub struct SevSegI2c<I2C: I2cWrite> {
    i2c: I2C,
    addr: u8,
}

impl<I2C> SevSegI2c<I2C> where I2C: I2cWrite {
    /// The bus that the transport owns.
    pub closed spec fn bus(&self) -> I2C {
        self.i2c
    }

    /// The address that the next write goes to.
    pub closed spec fn address(&self) -> u8 {
        self.addr
    }

    /// Makes a transport from a bus. Without an address the display is
    /// expected at [`DEFAULT_ADDRESS`].
    pub fn new(i2c: I2C, addr: Option<u8>) -> (r: Self)
        ensures
            r.bus() == i2c,
            r.address() == match addr {
                Some(a) => a,
                None => DEFAULT_ADDRESS,
            },
    {
        let addr: u8 = match addr {
            Some(a) => a,
            None => DEFAULT_ADDRESS,
        };
        Self { i2c, addr }
    }

    /// Changes the address that later writes go to.
    ///
    /// Nothing is sent: the display itself keeps the address it has.
    pub fn set_address(&mut self, addr: u8)
        ensures
            final(self).address() == addr,
            final(self).bus() == old(self).bus(),
    {
        self.addr = addr;
    }

    /// Gives the bus back.
    pub fn release(self) -> (r: I2C)
        ensures
            r == self.bus(),
    {
        self.i2c
    }
}

/// A change of address shows in the writes that follow it and in no other:
/// of two sends with a change of address between them, the first asked the
/// bus for a write to the address from before the change, the second for a
/// write to the new one, and the bus was asked for nothing else.
pub proof fn lemma_address_change_affects_later_writes_only<I2C: I2cWrite>(
    start: SevSegI2c<I2C>,
    first: Seq<u8>,
    sent: SevSegI2c<I2C>,
    r1: Result<(), Error<I2cError<I2C::Error>>>,
    addr: u8,
    moved: SevSegI2c<I2C>,
    second: Seq<u8>,
    end: SevSegI2c<I2C>,
    r2: Result<(), Error<I2cError<I2C::Error>>>,
)
    requires
        start.sends(first, &sent, r1),
        moved.address() == addr,
        moved.bus() == sent.bus(),
        moved.sends(second, &end, r2),
    ensures
        end.address() == addr,
        ({
            let asked = end.bus().asked();
            let n = start.bus().asked().len() as int;
            &&& asked.len() == n + 2
            &&& asked.subrange(0, n) == start.bus().asked()
            &&& asked[n].address == start.address()
            &&& asked[n].payload == first
            &&& r1 == bus_outcome(asked[n].outcome)
            &&& asked[n + 1].address == addr
            &&& asked[n + 1].payload == second
            &&& r2 == bus_outcome(asked[n + 1].outcome)
        }),
{
    assert(end.bus().asked().subrange(0, start.bus().asked().len() as int)
        =~= start.bus().asked());
}

impl<I2C> SevenSegInterface for SevSegI2c<I2C> where I2C: I2cWrite {
    type InterfaceError = I2cError<I2C::Error>;

    /// The payloads of all the writes that the bus has been asked for.
    open spec fn transfers(&self) -> Seq<Seq<u8>> {
        payloads(self.bus().asked())
    }

    /// A send asks the bus for one write of the data to the address that the
    /// transport holds, and for nothing else. It leaves the address as it is,
    /// and returns what the bus returned.
    open spec fn sends(
        &self,
        data: Seq<u8>,
        after: &Self,
        r: Result<(), Error<Self::InterfaceError>>,
    ) -> bool {
        &&& after.address() == self.address()
        &&& exists|outcome: Result<(), I2C::Error>|
            {
                &&& after.bus().asked() == self.bus().asked().push(
                    AddressedWrite { address: self.address(), payload: data, outcome },
                )
                &&& r == #[trigger] bus_outcome(outcome)
            }
    }

    fn send(&mut self, data: &[u8]) -> (r: Result<(), Error<Self::InterfaceError>>) {
        let ghost before = self.i2c.asked();
        let outcome = self.i2c.write(self.addr, data);
        proof {
            let entry = AddressedWrite { address: self.addr, payload: data@, outcome };
            assert(payloads(before.push(entry)) =~= payloads(before).push(data@));
        }
        bus_result(outcome)
    }
}

} // verus!
