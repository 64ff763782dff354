//! The display on an SPI bus, selected by a line of its own.
//!
//! The display wants SPI mode 0 (clock idle low, data sampled on the rising
//! edge) and a clock of at most 250 kHz. Both are set on the bus before it is
//! handed to the transport.

use vstd::prelude::*;
use crate::bus::{LevelRequest, OutputPin, PlainWrite, SpiWrite};
use crate::link::SpiLink;
use crate::{Error, SevenSegInterface};

verus! {

/// Why a transfer over SPI failed.
#[non_exhaustive]
#[derive(Debug, PartialEq, Eq)]
pub enum SpimError<SPIM, GPIO> {
    /// The bus reported a failure; the value is the bus's own error.
    Spim(SPIM),
    /// The chip-select line could not be driven; the value is the line's own error.
    Gpio(GPIO),
}

/// One request that the transport has made of its bus or of its chip-select
/// line, and what came back.
pub enum SpiEvent<S, G> {
    /// The chip-select line was asked to go low, which selects the display.
    SelectLow(Result<(), G>),
    /// The bus was asked to write these bytes.
    Write(Seq<u8>, Result<(), S>),
    /// The chip-select line was asked to go high, which lets the display go.
    SelectHigh(Result<(), G>),
}

/// The events of a transfer for which the display could not be selected:
/// nothing is written, and the line is not asked to go high, since it is
/// taken never to have gone low.
pub open spec fn failed_select<S, G>(e: G) -> Seq<SpiEvent<S, G>> {
    seq![SpiEvent::SelectLow(Err(e))]
}

/// The events of a transfer for which the display was selected: the write,
/// and then, whatever came of the write, the request to let the display go.
pub open spec fn framed_write<S, G>(
    data: Seq<u8>,
    write: Result<(), S>,
    release: Result<(), G>,
) -> Seq<SpiEvent<S, G>> {
    seq![SpiEvent::SelectLow(Ok(())), SpiEvent::Write(data, write), SpiEvent::SelectHigh(release)]
}

/// What a transfer returns once the display was selected.
///
/// A line that cannot be let go outranks a failed write: the bus is then in
/// the worse state, and the outcome of the write is dropped.
pub open spec fn settled<S, G>(write: Result<(), S>, release: Result<(), G>) -> Result<
    (),
    Error<SpimError<S, G>>,
> {
    match release {
        Err(g) => Err(Error::Interface(SpimError::Gpio(g))),
        Ok(_) => match write {
            Err(s) => Err(Error::Interface(SpimError::Spim(s))),
            Ok(_) => Ok(()),
        },
    }
}

/// The payloads of the writes in `history`, in order.
pub open spec fn payloads<E>(history: Seq<PlainWrite<E>>) -> Seq<Seq<u8>> {
    history.map_values(|w: PlainWrite<E>| w.payload)
}

/// Whether the event at place `i`, if it is a write, stands directly between
/// a request that selected the display and a request to let it go.
pub open spec fn framed_at<S, G>(events: Seq<SpiEvent<S, G>>, i: int) -> bool {
    0 <= i < events.len() && events[i] is Write ==> {
        &&& 0 < i && events[i - 1] == SpiEvent::<S, G>::SelectLow(Ok(()))
        &&& i + 1 < events.len() && events[i + 1] is SelectHigh
    }
}

/// Whether every write among `events` stands directly between a request that
/// selected the display and a request to let it go.
pub open spec fn well_framed<S, G>(events: Seq<SpiEvent<S, G>>) -> bool {
    forall|i: int| #[trigger] framed_at(events, i)
}

/// Decides what a transfer returns once the display was selected, from the
/// outcome of the write and the outcome of letting the display go.
pub fn settle<S, G>(write: Result<(), S>, release: Result<(), G>) -> (r: Result<
    (),
    Error<SpimError<S, G>>,
>)
    ensures
        r == settled(write, release),
{
    match release {
        Err(g) => Err(Error::Interface(SpimError::Gpio(g))),
        Ok(()) => match write {
            Err(s) => Err(Error::Interface(SpimError::Spim(s))),
            Ok(()) => Ok(()),
        },
    }
}

/// The display behind an SPI bus and a chip-select line, which is active low.
///
/// The transport owns both. A transfer that selected the display ends with
/// the request to let it go.
pub struct SevSegSpim<SPIM: SpiWrite, CS: OutputPin> {
    link: SpiLink<SPIM, CS>,
}

impl<SPIM, CS> SevSegSpim<SPIM, CS> where SPIM: SpiWrite, CS: OutputPin {
    /// The bus that the transport owns.
    pub closed spec fn bus(&self) -> SPIM {
        self.link.bus()
    }

    /// The chip-select line that the transport owns.
    pub closed spec fn chip_select(&self) -> CS {
        self.link.line()
    }

    /// The requests that the transport has made of its bus and of its
    /// chip-select line since it was made, oldest first.
    ///
    /// The bus and the line each have a history of their own, but no clock in
    /// common. This is where the order between a request to the one and a
    /// request to the other stands. Each request of the transport adds one
    /// entry here and the same entry to the history of the handle that it was
    /// made of, and nothing else adds here.
    pub closed spec fn events(&self) -> Seq<SpiEvent<SPIM::Error, CS::Error>> {
        self.link.events()
    }

    /// Makes a transport from a bus and the line that selects the display.
    pub fn new(spim: SPIM, csn: CS) -> (r: Self)
        ensures
            r.bus() == spim,
            r.chip_select() == csn,
            r.events() == Seq::<SpiEvent<SPIM::Error, CS::Error>>::empty(),
    {
        Self { link: SpiLink::new(spim, csn) }
    }

    /// Gives the bus and the chip-select line back.
    pub fn release(self) -> (r: (SPIM, CS))
        ensures
            r == (self.bus(), self.chip_select()),
    {
        self.link.into_parts()
    }
}

/// An outcome that is a success is the one success there is.
proof fn lemma_success_is_unit<E>(outcome: Result<(), E>)
    requires
        outcome is Ok,
    ensures
        outcome == Ok::<(), E>(()),
{
    assert(outcome->Ok_0 == ());
}

/// A send keeps the writes framed: if every write so far stood between a
/// request that selected the display and a request to let it go, so does
/// every write after the send, however the send ended. A transport starts
/// with no events, so its writes are framed at all times.
pub proof fn lemma_send_keeps_framing<SPIM: SpiWrite, CS: OutputPin>(
    before: SevSegSpim<SPIM, CS>,
    data: Seq<u8>,
    after: SevSegSpim<SPIM, CS>,
    r: Result<(), Error<SpimError<SPIM::Error, CS::Error>>>,
)
    requires
        well_framed(before.events()),
        before.sends(data, &after, r),
    ensures
        well_framed(after.events()),
{
    let old_events = before.events();
    let new_events = after.events();
    let n = old_events.len() as int;
    assert forall|i: int| #[trigger] framed_at(new_events, i) by {
        if 0 <= i < n {
            assert(framed_at(old_events, i));
            assert(new_events[i] == old_events[i]);
        }
    }
}

/// When the bus write fails, the display is still asked to be let go before
/// the error comes back: a send that returns the bus's error made all three
/// requests, and the last of them succeeded.
pub proof fn lemma_failed_write_lets_display_go<SPIM: SpiWrite, CS: OutputPin>(
    before: SevSegSpim<SPIM, CS>,
    data: Seq<u8>,
    after: SevSegSpim<SPIM, CS>,
    r: Result<(), Error<SpimError<SPIM::Error, CS::Error>>>,
)
    requires
        before.sends(data, &after, r),
        r matches Err(Error::Interface(SpimError::Spim(_))),
    ensures
        ({
            let n = before.events().len() as int;
            &&& after.events().len() == n + 3
            &&& after.events().subrange(0, n) == before.events()
            &&& after.events()[n] == SpiEvent::<SPIM::Error, CS::Error>::SelectLow(Ok(()))
            &&& after.events()[n + 1] matches SpiEvent::Write(d, Err(e)) && d == data && r == Err::<
                (),
                Error<SpimError<SPIM::Error, CS::Error>>,
            >(Error::Interface(SpimError::Spim(e)))
            &&& after.events()[n + 2] == SpiEvent::<SPIM::Error, CS::Error>::SelectHigh(Ok(()))
        }),
{
    let n = before.events().len() as int;
    let (write, release) = choose|write: Result<(), SPIM::Error>, release: Result<(), CS::Error>|
        {
            &&& after.events() == before.events() + #[trigger] framed_write(data, write, release)
            &&& r == settled(write, release)
        };
    lemma_success_is_unit(release);
    assert(after.events().subrange(0, n) =~= before.events());
}

/// A send that succeeds made exactly three requests: it selected the display,
/// wrote the data, and let the display go, and each of them succeeded.
pub proof fn lemma_successful_send_is_framed<SPIM: SpiWrite, CS: OutputPin>(
    before: SevSegSpim<SPIM, CS>,
    data: Seq<u8>,
    after: SevSegSpim<SPIM, CS>,
)
    requires
        before.sends(data, &after, Ok(())),
    ensures
        after.events() == before.events() + framed_write::<SPIM::Error, CS::Error>(
            data,
            Ok(()),
            Ok(()),
        ),
{
    let (write, release) = choose|write: Result<(), SPIM::Error>, release: Result<(), CS::Error>|
        {
            &&& after.events() == before.events() + #[trigger] framed_write(data, write, release)
            &&& settled(write, release) == Ok::<(), Error<SpimError<SPIM::Error, CS::Error>>>(())
        };
    lemma_success_is_unit(write);
    lemma_success_is_unit(release);
}

/// Whether `history` is made of pairs, each a request to go low and then a
/// request to go high.
pub open spec fn low_then_high<E>(history: Seq<LevelRequest<E>>) -> bool {
    &&& history.len() % 2 == 0
    &&& forall|i: int| 0 <= i < history.len() ==> (#[trigger] history[i]).high == (i % 2 == 1)
}

/// Whether the first thing that the line was asked between `before` and
/// `after` succeeded: for a send, whether it selected the display.
pub open spec fn selected_between<SPIM: SpiWrite, CS: OutputPin>(
    before: SevSegSpim<SPIM, CS>,
    after: SevSegSpim<SPIM, CS>,
) -> bool {
    let n = before.chip_select().asked().len() as int;
    n < after.chip_select().asked().len() && after.chip_select().asked()[n].outcome is Ok
}

/// The chip-select line is left high between transfers.
///
/// A send that selected the display ends with the request to raise the line,
/// in the transport's events and in the line's own history. A send that
/// returns no error of the line did select the display, and both of its
/// requests to the line succeeded. And a send that selected the display asks
/// the line for low and then for high and for nothing else, so a line that
/// has been asked for pairs of low then high has been asked for such pairs
/// after the send too.
pub proof fn lemma_line_left_high<SPIM: SpiWrite, CS: OutputPin>(
    before: SevSegSpim<SPIM, CS>,
    data: Seq<u8>,
    after: SevSegSpim<SPIM, CS>,
    r: Result<(), Error<SpimError<SPIM::Error, CS::Error>>>,
)
    requires
        before.sends(data, &after, r),
    ensures
        selected_between(before, after) ==> {
            &&& after.events().len() == before.events().len() + 3
            &&& after.events().last() is SelectHigh
            &&& after.chip_select().asked().len() == before.chip_select().asked().len() + 2
            &&& after.chip_select().asked().last().high
            &&& low_then_high(before.chip_select().asked()) ==> low_then_high(
                after.chip_select().asked(),
            )
        },
        !(r matches Err(Error::Interface(SpimError::Gpio(_)))) ==> {
            &&& selected_between(before, after)
            &&& after.chip_select().asked().last().outcome is Ok
        },
{
    let old_line = before.chip_select().asked();
    let new_line = after.chip_select().asked();
    let n = old_line.len() as int;
    if selected_between(before, after) {
        let (write, release) = choose|
            write: Result<(), SPIM::Error>,
            release: Result<(), CS::Error>,
        |
            {
                &&& new_line == old_line.push(LevelRequest { high: false, outcome: Ok(()) }).push(
                    LevelRequest { high: true, outcome: release },
                )
                &&& after.events() == before.events() + #[trigger] framed_write(
                    data,
                    write,
                    release,
                )
            };
        if low_then_high(old_line) {
            assert forall|i: int| 0 <= i < new_line.len() implies (#[trigger] new_line[i]).high == (
            i % 2 == 1) by {
                if i < n {
                    assert(new_line[i] == old_line[i]);
                }
            }
        }
    }
}

impl<SPIM, CS> SevenSegInterface for SevSegSpim<SPIM, CS> where SPIM: SpiWrite, CS: OutputPin {
    type InterfaceError = SpimError<SPIM::Error, CS::Error>;

    /// The payloads of all the writes that the bus has been asked for.
    open spec fn transfers(&self) -> Seq<Seq<u8>> {
        payloads(self.bus().asked())
    }

    /// A send asks the line to go low, which selects the display. If that
    /// fails it ends there, with nothing asked of the bus, and returns the
    /// line's error. Otherwise it asks the bus for one write of the data and
    /// then, whatever came of the write, asks the line to go high, and
    /// returns what [`settled`] says. Nothing else is asked of either.
    open spec fn sends(
        &self,
        data: Seq<u8>,
        after: &Self,
        r: Result<(), Error<Self::InterfaceError>>,
    ) -> bool {
        let line = self.chip_select().asked();
        let bus = self.bus().asked();
        ||| exists|e: CS::Error|
            {
                &&& after.chip_select().asked() == line.push(
                    LevelRequest { high: false, outcome: Err(e) },
                )
                &&& after.bus().asked() == bus
                &&& after.events() == self.events() + #[trigger] failed_select::<
                    SPIM::Error,
                    CS::Error,
                >(e)
                &&& r == Err::<(), Error<Self::InterfaceError>>(
                    Error::Interface(SpimError::Gpio(e)),
                )
            }
        ||| exists|write: Result<(), SPIM::Error>, release: Result<(), CS::Error>|
            {
                &&& after.chip_select().asked() == line.push(
                    LevelRequest { high: false, outcome: Ok(()) },
                ).push(LevelRequest { high: true, outcome: release })
                &&& after.bus().asked() == bus.push(PlainWrite { payload: data, outcome: write })
                &&& after.events() == self.events() + #[trigger] framed_write(
                    data,
                    write,
                    release,
                )
                &&& r == settled(write, release)
            }
    }

    fn send(&mut self, data: &[u8]) -> (r: Result<(), Error<Self::InterfaceError>>) {
        let ghost before = self.events();
        let ghost asked = self.bus().asked();
        let select = self.link.select();
        match select {
            Ok(()) => {},
            Err(e) => {
                assert(self.events() =~= before + failed_select::<SPIM::Error, CS::Error>(e));
                return Err(Error::Interface(SpimError::Gpio(e)));
            },
        }
        let write = self.link.write(data);
        let release = self.link.let_go();
        proof {
            lemma_success_is_unit(select);
            assert(self.events() =~= before + framed_write(data@, write, release));
            let entry = PlainWrite { payload: data@, outcome: write };
            assert(payloads(asked.push(entry)) =~= payloads(asked).push(data@));
        }
        settle(write, release)
    }
}

} // verus!
