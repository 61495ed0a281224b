//! The event loop of the driver.
//!
//! The loop waits for one of four things: the chip's interrupt, a frame to
//! send, a free buffer for a received frame, or the tick of its timer. It
//! handles the one that came first, over as many bus operations as that
//! takes, and waits again. Three flags decide what it waits for: whether the
//! chip has room for a frame, whether the last frame has left, and how many
//! received frames the chip still holds.

use crate::bus::{Operation, Reply, Step};
use crate::chip::{Chip, FrameCount, LinkQuery, ReadyTx, Rx, Tx};
use crate::error::{Error, LinkState};
use crate::registers::{IER, ISR};
use vstd::prelude::*;

verus! {

/// How long the loop waits, in milliseconds, before it looks at the link
/// again.
pub const TICK_MILLIS: u32 = 1000;

/// Something that the loop was waiting for has happened, or a bus operation
/// has been carried out.
#[derive(Clone, Copy, Debug, PartialEq, Eq)]
pub enum Event {
    /// The chip holds its interrupt line low.
    Interrupt,
    /// The network stack has a frame of `len` bytes to send.
    Transmit { len: usize },
    /// The network stack has a free buffer of `capacity` bytes.
    Receive { capacity: usize },
    /// The timer has ticked.
    Tick,
    /// The pending bus operation has been carried out.
    Reply(Reply),
}

/// Why the loop cannot go on.
#[derive(Clone, Copy, Debug, PartialEq, Eq)]
pub enum Fault {
    /// The chip's receive queue overflowed.
    ReceiveOverrun,
    /// An operation on the chip failed.
    Failed(Error),
}

/// What the loop needs next.
#[derive(Clone, Copy, Debug, PartialEq, Eq)]
pub enum Demand {
    /// Wait for the interrupt or the tick, for a frame to send if
    /// `transmit` says so, and for a free receive buffer if `receive` says
    /// so.
    Wait { transmit: bool, receive: bool },
    /// Carry out a bus operation.
    Bus(Operation),
    /// Nothing: the loop has stopped for good.
    Halt(Fault),
}

/// What the loop tells the network stack.
#[derive(Clone, Copy, Debug, PartialEq, Eq)]
pub enum Notice {
    /// The link is in this state.
    LinkState(LinkState),
    /// The frame to send has been handed to the chip; its buffer is free.
    Transmitted,
    /// The receive buffer holds a frame of `len` bytes.
    Received { len: usize },
}

/// What the loop is doing.
#[derive(Clone, Copy, Debug, PartialEq, Eq)]
pub enum Activity {
    /// Waiting for an event.
    Idle,
    /// After an interrupt: read the interrupt status.
    Status,
    /// The link changed: read its state.
    LinkChange { isr: ISR, link: LinkQuery },
    /// Frames were received: read the interrupt enables.
    MaskFetch { isr: ISR },
    /// Disable the receive interrupt.
    Mask { isr: ISR, ier: IER },
    /// Clear the interrupts that were seen.
    Acknowledge { isr: ISR },
    /// Read how many frames were received.
    Count { count: FrameCount },
    /// A frame is to be sent: ask the chip for room.
    Room { room: ReadyTx },
    /// Send the frame.
    Transmit { tx: Tx },
    /// A receive buffer is free: take a frame from the chip.
    Receive { rx: Rx },
    /// The chip holds no more frames: read the interrupt enables.
    RearmFetch,
    /// Enable the receive interrupt again.
    Rearm { ier: IER },
    /// The timer ticked: read the state of the link.
    Link { link: LinkQuery },
    /// Stopped for good.
    Halted(Fault),
}

/// The interrupt status word that clears what the loop has seen in `isr`:
/// a change of the link, a frame sent, frames received, room for a frame,
/// and a bus error.
#[verifier::allow_in_spec]
pub fn acknowledged(isr: ISR) -> ISR
    returns
        ISR::zeroed().with_link_change(isr.read_link_change()).with_transmit(
            isr.read_transmit(),
        ).with_spi_bus_error(isr.read_spi_bus_error()).with_receive(
            isr.read_receive(),
        ).with_transmit_space_available(isr.read_transmit_space_available()),
{
    ISR::zeroed().with_link_change(isr.read_link_change()).with_transmit(
        isr.read_transmit(),
    ).with_spi_bus_error(isr.read_spi_bus_error()).with_receive(
        isr.read_receive(),
    ).with_transmit_space_available(isr.read_transmit_space_available())
}

/// What a step of an operation asks of the loop's caller. An operation that
/// has ended asks for nothing.
pub open spec fn demand_of<T>(step: Step<T>) -> Demand {
    match step {
        Step::Pending(op) => Demand::Bus(op),
        Step::Ready(_) => Demand::Wait { transmit: false, receive: false },
    }
}

/// Computes [`demand_of`].
pub fn demand<T>(step: Step<T>) -> (d: Demand)
    ensures
        d == demand_of(step),
{
    match step {
        Step::Pending(op) => Demand::Bus(op),
        Step::Ready(_) => Demand::Wait { transmit: false, receive: false },
    }
}

/// The event loop: the chip's state, the three flags, and what the loop is
/// doing.
#[derive(Clone, Copy, Debug, PartialEq, Eq)]
pub struct Runner {
    pub chip: Chip,
    /// The chip has not refused a frame for want of room since it last
    /// reported room.
    pub tx_space_available: bool,
    /// No frame is on its way out.
    pub tx_done: bool,
    /// How many received frames the chip holds, as far as the loop knows.
    pub rx_pending: u8,
    pub activity: Activity,
}

impl Runner {
    /// The loop before its first event: nothing is pending.
    pub open spec fn start() -> Runner {
        Runner {
            chip: Chip { next_frame_id: 0 },
            tx_space_available: true,
            tx_done: true,
            rx_pending: 0,
            activity: Activity::Idle,
        }
    }

    /// The loop doing `activity`, with everything else as it is.
    pub open spec fn doing(self, activity: Activity) -> Runner {
        Runner { activity, ..self }
    }

    /// The loop stopped by `fault`.
    pub open spec fn halted(self, fault: Fault) -> Runner {
        self.doing(Activity::Halted(fault))
    }

    /// Whether the loop sends a frame or asks for room for one.
    pub open spec fn transmitting(self) -> bool {
        self.activity is Room || self.activity is Transmit
    }

    /// Whether the loop is in a state that its own steps lead to: it sends
    /// only while both transmit flags are set, it receives only while
    /// frames are pending, and the operation that it runs has not ended.
    pub open spec fn wf(self) -> bool {
        match self.activity {
            Activity::LinkChange { link, .. } => link.position() is Pending,
            Activity::Count { count } => count.position() is Pending,
            Activity::Room { room } => self.tx_space_available && self.tx_done
                && room.position() is Pending,
            Activity::Transmit { tx } => self.tx_space_available && self.tx_done
                && tx.position() is Pending,
            Activity::Receive { rx } => self.rx_pending > 0 && rx.wf() && rx.position() is Pending,
            Activity::Link { link } => link.position() is Pending,
            _ => true,
        }
    }

    /// What the loop needs next.
    pub open spec fn position(self) -> Demand {
        match self.activity {
            Activity::Idle => Demand::Wait {
                transmit: self.tx_space_available && self.tx_done,
                receive: self.rx_pending > 0,
            },
            Activity::Status => Demand::Bus(Operation::ReadRegister { address: ISR::ADDRESS }),
            Activity::LinkChange { link, .. } => demand_of(link.position()),
            Activity::MaskFetch { .. } => Demand::Bus(
                Operation::ReadRegister { address: IER::ADDRESS },
            ),
            Activity::Mask { ier, .. } => Demand::Bus(
                Operation::WriteRegister { address: IER::ADDRESS, word: ier.bits },
            ),
            Activity::Acknowledge { isr } => Demand::Bus(
                Operation::WriteRegister { address: ISR::ADDRESS, word: acknowledged(isr).bits },
            ),
            Activity::Count { count } => demand_of(count.position()),
            Activity::Room { room } => demand_of(room.position()),
            Activity::Transmit { tx } => demand_of(tx.position()),
            Activity::Receive { rx } => demand_of(rx.position()),
            Activity::RearmFetch => Demand::Bus(Operation::ReadRegister { address: IER::ADDRESS }),
            Activity::Rearm { ier } => Demand::Bus(
                Operation::WriteRegister { address: IER::ADDRESS, word: ier.bits },
            ),
            Activity::Link { link } => demand_of(link.position()),
            Activity::Halted(fault) => Demand::Halt(fault),
        }
    }

    /// Whether the loop, in a proper state, can take `event`: while it
    /// waits, an event that it waits for; while it works on the bus, a
    /// reply that the running operation admits.
    pub open spec fn admits(self, event: Event) -> bool {
        &&& self.wf()
        &&& match event {
            Event::Interrupt => self.activity is Idle,
            Event::Tick => self.activity is Idle,
            Event::Transmit { .. } => self.activity is Idle && self.tx_space_available
                && self.tx_done,
            Event::Receive { .. } => self.activity is Idle && self.rx_pending > 0,
            Event::Reply(reply) => match self.activity {
                Activity::LinkChange { link, .. } => link.admits(reply),
                Activity::Count { count } => count.admits(reply),
                Activity::Room { room } => room.admits(reply),
                Activity::Transmit { tx } => tx.admits(reply),
                Activity::Receive { rx } => rx.admits(reply),
                Activity::Link { link } => link.admits(reply),
                _ => self.position() matches Demand::Bus(op) && op.answered_by(reply),
            },
        }
    }

    /// The loop after the interrupt status `isr` was read. A frame sent
    /// lets the next one go; room reported lets the loop ask for room
    /// again. Then the link is read, if it changed.
    pub open spec fn interrupted(self, isr: ISR) -> Runner {
        let seen = Runner {
            tx_done: self.tx_done || isr.read_transmit(),
            tx_space_available: self.tx_space_available || isr.read_transmit_space_available(),
            ..self
        };
        if isr.read_link_change() {
            seen.doing(Activity::LinkChange { isr, link: LinkQuery::Status })
        } else {
            seen.sorted(isr)
        }
    }

    /// The loop once the link is dealt with. An overrun of the receive
    /// queue stops it. Received frames have it disable the receive
    /// interrupt before it clears the interrupts.
    pub open spec fn sorted(self, isr: ISR) -> Runner {
        if isr.read_receive_overrun() {
            self.halted(Fault::ReceiveOverrun)
        } else if isr.read_receive() {
            self.doing(Activity::MaskFetch { isr })
        } else {
            self.doing(Activity::Acknowledge { isr })
        }
    }

    /// The loop once the interrupts are cleared. Only now does the chip's
    /// frame count hold what was received, and the loop reads it, unless
    /// frames of an earlier interrupt are pending still.
    pub open spec fn cleared(self, isr: ISR) -> Runner {
        if isr.read_receive() && self.rx_pending == 0 {
            self.doing(Activity::Count { count: FrameCount::Count })
        } else {
            self.doing(Activity::Idle)
        }
    }

    /// The loop once the chip's frame count is known, or the bus failed.
    pub open spec fn counted(self, query: FrameCount) -> Runner {
        match query {
            FrameCount::Done(Ok(available)) => Runner {
                rx_pending: if self.rx_pending != 0 {
                    self.rx_pending
                } else {
                    available
                },
                activity: Activity::Idle,
                ..self
            },
            FrameCount::Done(Err(e)) => self.halted(Fault::Failed(e)),
            _ => self.doing(Activity::Count { count: query }),
        }
    }

    /// The loop where the question for room stands at `query`. With room
    /// the frame is sent. Without, the loop asks no more until the chip
    /// reports room.
    pub open spec fn asked(self, query: ReadyTx) -> Runner {
        match query {
            ReadyTx::Done(Ok(true)) => self.doing(
                Activity::Transmit { tx: Tx::start(self.chip.next_frame_id) },
            ),
            ReadyTx::Done(Ok(false)) => Runner {
                tx_space_available: false,
                activity: Activity::Idle,
                ..self
            },
            ReadyTx::Done(Err(e)) => self.halted(Fault::Failed(e)),
            _ => self.doing(Activity::Room { room: query }),
        }
    }

    /// The loop where the sending of the frame stands at `op`. Once the
    /// frame is handed over, no other is sent until the chip reports that
    /// it has left.
    pub open spec fn sending(self, op: Tx) -> Runner {
        match op.position() {
            Step::Ready(Ok(())) => Runner { tx_done: false, activity: Activity::Idle, ..self },
            Step::Ready(Err(e)) => self.halted(Fault::Failed(e)),
            Step::Pending(_) => self.doing(Activity::Transmit { tx: op }),
        }
    }

    /// The loop with `pending` frames left in the chip. With none left the
    /// receive interrupt is enabled again.
    pub open spec fn drained(self, pending: u8) -> Runner {
        Runner {
            rx_pending: pending,
            activity: if pending == 0 {
                Activity::RearmFetch
            } else {
                Activity::Idle
            },
            ..self
        }
    }

    /// The loop where the reception of a frame stands at `op`. A frame
    /// received or dropped is one frame less; without a frame where one
    /// was expected, none is left.
    pub open spec fn receiving(self, op: Rx) -> Runner {
        match op.position() {
            Step::Ready(Ok(_)) => self.drained((self.rx_pending - 1) as u8),
            Step::Ready(Err(Error::RxFrameInvalid)) => self.drained((self.rx_pending - 1) as u8),
            Step::Ready(Err(Error::RxNoFrameAvailable)) => self.drained(0),
            Step::Ready(Err(e)) => self.halted(Fault::Failed(e)),
            Step::Pending(_) => self.doing(Activity::Receive { rx: op }),
        }
    }

    /// The loop where the reading of the link stands at `query`, and
    /// `then` what it does once the link is known.
    pub open spec fn linked(self, query: LinkQuery, then: Runner, still: Activity) -> Runner {
        match query {
            LinkQuery::Done(Ok(_)) => then,
            LinkQuery::Done(Err(e)) => self.halted(Fault::Failed(e)),
            _ => self.doing(still),
        }
    }

    /// The loop after `event`.
    pub open spec fn next(self, event: Event) -> Runner {
        match event {
            Event::Interrupt => self.doing(Activity::Status),
            Event::Tick => self.doing(Activity::Link { link: LinkQuery::Status }),
            Event::Transmit { len } => self.asked(ReadyTx::start(len)),
            Event::Receive { capacity } => self.doing(
                Activity::Receive { rx: Rx::start(capacity) },
            ),
            Event::Reply(reply) => match self.activity {
                Activity::LinkChange { isr, link } => self.linked(
                    link.next(reply),
                    self.sorted(isr),
                    Activity::LinkChange { isr, link: link.next(reply) },
                ),
                Activity::Count { count } => self.counted(count.next(reply)),
                Activity::Room { room } => self.asked(room.next(reply)),
                Activity::Transmit { tx } => Runner {
                    chip: if tx.submits(reply) {
                        self.chip.sent()
                    } else {
                        self.chip
                    },
                    ..self
                }.sending(tx.next(reply)),
                Activity::Receive { rx } => self.receiving(rx.next(reply)),
                Activity::Link { link } => self.linked(
                    link.next(reply),
                    self.doing(Activity::Idle),
                    Activity::Link { link: link.next(reply) },
                ),
                Activity::Idle => self,
                Activity::Halted(_) => self,
                _ => match reply {
                    Reply::Failed(kind) => self.halted(Fault::Failed(Error::SpiError(kind))),
                    Reply::Word(word) => match self.activity {
                        Activity::Status => self.interrupted(ISR { bits: word }),
                        Activity::MaskFetch { isr } => self.doing(
                            Activity::Mask {
                                isr,
                                ier: (IER { bits: word }).with_receive_enable(false),
                            },
                        ),
                        Activity::RearmFetch => self.doing(
                            Activity::Rearm { ier: (IER { bits: word }).with_receive_enable(true) },
                        ),
                        _ => self,
                    },
                    _ => match self.activity {
                        Activity::Mask { isr, .. } => self.doing(Activity::Acknowledge { isr }),
                        Activity::Acknowledge { isr } => self.cleared(isr),
                        Activity::Rearm { .. } => self.doing(Activity::Idle),
                        _ => self,
                    },
                },
            },
        }
    }

    /// What the loop tells the network stack as it takes `event`: the
    /// state of the link once it is read, that a frame was handed to the
    /// chip, and the length of a frame that was received.
    pub open spec fn notice(self, event: Event) -> Option<Notice> {
        match event {
            Event::Reply(reply) => match self.activity {
                Activity::LinkChange { link, .. } => match link.next(reply) {
                    LinkQuery::Done(Ok(state)) => Some(Notice::LinkState(state)),
                    _ => None,
                },
                Activity::Link { link } => match link.next(reply) {
                    LinkQuery::Done(Ok(state)) => Some(Notice::LinkState(state)),
                    _ => None,
                },
                Activity::Transmit { tx } => match tx.next(reply).position() {
                    Step::Ready(Ok(())) => Some(Notice::Transmitted),
                    _ => None,
                },
                Activity::Receive { rx } => match rx.next(reply).position() {
                    Step::Ready(Ok(len)) => Some(Notice::Received { len }),
                    _ => None,
                },
                _ => None,
            },
            _ => None,
        }
    }

    /// The loop before its first event.
    pub fn new() -> (runner: Runner)
        ensures
            runner == Runner::start(),
            runner.wf(),
    {
        Runner {
            chip: Chip::new(),
            tx_space_available: true,
            tx_done: true,
            rx_pending: 0,
            activity: Activity::Idle,
        }
    }

    /// What the loop needs next.
    pub fn poll(&self) -> (d: Demand)
        ensures
            d == self.position(),
    {
        match self.activity {
            Activity::Idle => Demand::Wait {
                transmit: self.tx_space_available && self.tx_done,
                receive: self.rx_pending > 0,
            },
            Activity::Status => Demand::Bus(Operation::ReadRegister { address: ISR::ADDRESS }),
            Activity::LinkChange { link, .. } => demand(link.poll()),
            Activity::MaskFetch { .. } => Demand::Bus(
                Operation::ReadRegister { address: IER::ADDRESS },
            ),
            Activity::Mask { ier, .. } => Demand::Bus(
                Operation::WriteRegister { address: IER::ADDRESS, word: ier.bits },
            ),
            Activity::Acknowledge { isr } => Demand::Bus(
                Operation::WriteRegister { address: ISR::ADDRESS, word: acknowledged(isr).bits },
            ),
            Activity::Count { count } => demand(count.poll()),
            Activity::Room { room } => demand(room.poll()),
            Activity::Transmit { tx } => demand(tx.poll()),
            Activity::Receive { rx } => demand(rx.poll()),
            Activity::RearmFetch => Demand::Bus(Operation::ReadRegister { address: IER::ADDRESS }),
            Activity::Rearm { ier } => Demand::Bus(
                Operation::WriteRegister { address: IER::ADDRESS, word: ier.bits },
            ),
            Activity::Link { link } => demand(link.poll()),
            Activity::Halted(fault) => Demand::Halt(fault),
        }
    }

    /// Computes [`Runner::wf`].
    pub fn is_wf(&self) -> (b: bool)
        ensures
            b == self.wf(),
    {
        match self.activity {
            Activity::LinkChange { link, .. } => matches!(link.poll(), Step::Pending(_)),
            Activity::Count { count } => matches!(count.poll(), Step::Pending(_)),
            Activity::Room { room } => self.tx_space_available && self.tx_done && matches!(
                room.poll(),
                Step::Pending(_)
            ),
            Activity::Transmit { tx } => self.tx_space_available && self.tx_done && matches!(
                tx.poll(),
                Step::Pending(_)
            ),
            Activity::Receive { rx } => self.rx_pending > 0 && rx.is_wf() && matches!(
                rx.poll(),
                Step::Pending(_)
            ),
            Activity::Link { link } => matches!(link.poll(), Step::Pending(_)),
            _ => true,
        }
    }

    /// Whether the loop can take `event`. Where it cannot, the event is not
    /// one that the loop asked for, or the chip and the driver have lost
    /// track of each other.
    pub fn accepts(&self, event: &Event) -> (b: bool)
        ensures
            b == self.admits(*event),
    {
        let idle = matches!(self.activity, Activity::Idle);
        let fitting = match event {
            Event::Interrupt => idle,
            Event::Tick => idle,
            Event::Transmit { .. } => idle && self.tx_space_available && self.tx_done,
            Event::Receive { .. } => idle && self.rx_pending > 0,
            Event::Reply(reply) => match self.activity {
                Activity::LinkChange { link, .. } => link.accepts(reply),
                Activity::Count { count } => count.accepts(reply),
                Activity::Room { room } => room.accepts(reply),
                Activity::Transmit { tx } => tx.accepts(reply),
                Activity::Receive { rx } => rx.accepts(reply),
                Activity::Link { link } => link.accepts(reply),
                _ => match self.poll() {
                    Demand::Bus(op) => op.is_answered_by(reply),
                    _ => false,
                },
            },
        };
        self.is_wf() && fitting
    }

    /// Sorts out what the interrupt status `isr` asks for.
    fn sort(&mut self, isr: ISR)
        ensures
            *final(self) == old(self).sorted(isr),
    {
        if isr.read_receive_overrun() {
            self.activity = Activity::Halted(Fault::ReceiveOverrun);
        } else if isr.read_receive() {
            self.activity = Activity::MaskFetch { isr };
        } else {
            self.activity = Activity::Acknowledge { isr };
        }
    }

    /// Takes in the interrupt status `isr`.
    fn interrupt(&mut self, isr: ISR)
        ensures
            *final(self) == old(self).interrupted(isr),
    {
        self.tx_done = self.tx_done || isr.read_transmit();
        self.tx_space_available = self.tx_space_available || isr.read_transmit_space_available();
        if isr.read_link_change() {
            self.activity = Activity::LinkChange { isr, link: LinkQuery::Status };
        } else {
            self.sort(isr);
        }
    }

    /// Goes on after the interrupts were cleared.
    fn clear(&mut self, isr: ISR)
        ensures
            *final(self) == old(self).cleared(isr),
    {
        if isr.read_receive() && self.rx_pending == 0 {
            self.activity = Activity::Count { count: FrameCount::Count };
        } else {
            self.activity = Activity::Idle;
        }
    }

    /// Goes on from where the reading of the frame count stands.
    fn count(&mut self, query: FrameCount)
        ensures
            *final(self) == old(self).counted(query),
    {
        match query {
            FrameCount::Done(Ok(available)) => {
                if self.rx_pending == 0 {
                    self.rx_pending = available;
                }
                self.activity = Activity::Idle;
            },
            FrameCount::Done(Err(e)) => {
                self.activity = Activity::Halted(Fault::Failed(e));
            },
            _ => {
                self.activity = Activity::Count { count: query };
            },
        }
    }

    /// Goes on from where the question for room stands.
    fn ask(&mut self, query: ReadyTx)
        ensures
            *final(self) == old(self).asked(query),
    {
        match query {
            ReadyTx::Done(Ok(true)) => {
                self.activity = Activity::Transmit { tx: self.chip.tx() };
            },
            ReadyTx::Done(Ok(false)) => {
                self.tx_space_available = false;
                self.activity = Activity::Idle;
            },
            ReadyTx::Done(Err(e)) => {
                self.activity = Activity::Halted(Fault::Failed(e));
            },
            _ => {
                self.activity = Activity::Room { room: query };
            },
        }
    }

    /// Goes on from where the sending of the frame stands.
    fn send(&mut self, op: Tx) -> (notice: Option<Notice>)
        ensures
            *final(self) == old(self).sending(op),
            notice == match op.position() {
                Step::Ready(Ok(())) => Some(Notice::Transmitted),
                _ => None,
            },
    {
        match op.poll() {
            Step::Ready(Ok(())) => {
                self.tx_done = false;
                self.activity = Activity::Idle;
                Some(Notice::Transmitted)
            },
            Step::Ready(Err(e)) => {
                self.activity = Activity::Halted(Fault::Failed(e));
                None
            },
            Step::Pending(_) => {
                self.activity = Activity::Transmit { tx: op };
                None
            },
        }
    }

    /// Goes on with `pending` frames left in the chip.
    fn drain(&mut self, pending: u8)
        ensures
            *final(self) == old(self).drained(pending),
    {
        self.rx_pending = pending;
        if pending == 0 {
            self.activity = Activity::RearmFetch;
        } else {
            self.activity = Activity::Idle;
        }
    }

    /// Goes on from where the reception of a frame stands.
    fn receive(&mut self, op: Rx) -> (notice: Option<Notice>)
        requires
            old(self).rx_pending > 0,
        ensures
            *final(self) == old(self).receiving(op),
            notice == match op.position() {
                Step::Ready(Ok(len)) => Some(Notice::Received { len }),
                _ => None,
            },
    {
        match op.poll() {
            Step::Ready(Ok(len)) => {
                self.drain(self.rx_pending - 1);
                Some(Notice::Received { len })
            },
            Step::Ready(Err(Error::RxFrameInvalid)) => {
                self.drain(self.rx_pending - 1);
                None
            },
            Step::Ready(Err(Error::RxNoFrameAvailable)) => {
                self.drain(0);
                None
            },
            Step::Ready(Err(e)) => {
                self.activity = Activity::Halted(Fault::Failed(e));
                None
            },
            Step::Pending(_) => {
                self.activity = Activity::Receive { rx: op };
                None
            },
        }
    }

    /// Takes `event` and goes on to the next thing to do. Returns what the
    /// network stack is to be told.
    pub fn advance(&mut self, event: Event) -> (notice: Option<Notice>)
        requires
            old(self).admits(event),
        ensures
            *final(self) == old(self).next(event),
            notice == old(self).notice(event),
            final(self).wf(),
    {
        match event {
            Event::Interrupt => {
                self.activity = Activity::Status;
                None
            },
            Event::Tick => {
                self.activity = Activity::Link { link: LinkQuery::Status };
                None
            },
            Event::Transmit { len } => {
                let query = self.chip.ready_tx(len);
                self.ask(query);
                None
            },
            Event::Receive { capacity } => {
                self.activity = Activity::Receive { rx: self.chip.rx(capacity) };
                None
            },
            Event::Reply(reply) => match self.activity {
                Activity::LinkChange { isr, link } => {
                    let mut link = link;
                    link.advance(reply);
                    match link {
                        LinkQuery::Done(Ok(state)) => {
                            self.sort(isr);
                            Some(Notice::LinkState(state))
                        },
                        LinkQuery::Done(Err(e)) => {
                            self.activity = Activity::Halted(Fault::Failed(e));
                            None
                        },
                        _ => {
                            self.activity = Activity::LinkChange { isr, link };
                            None
                        },
                    }
                },
                Activity::Count { count } => {
                    let mut count = count;
                    count.advance(reply);
                    self.count(count);
                    None
                },
                Activity::Room { room } => {
                    let mut room = room;
                    room.advance(reply);
                    self.ask(room);
                    None
                },
                Activity::Transmit { tx } => {
                    let mut tx = tx;
                    tx.advance(&mut self.chip, reply);
                    self.send(tx)
                },
                Activity::Receive { rx } => {
                    let mut rx = rx;
                    rx.advance(reply);
                    self.receive(rx)
                },
                Activity::Link { link } => {
                    let mut link = link;
                    link.advance(reply);
                    match link {
                        LinkQuery::Done(Ok(state)) => {
                            self.activity = Activity::Idle;
                            Some(Notice::LinkState(state))
                        },
                        LinkQuery::Done(Err(e)) => {
                            self.activity = Activity::Halted(Fault::Failed(e));
                            None
                        },
                        _ => {
                            self.activity = Activity::Link { link };
                            None
                        },
                    }
                },
                Activity::Idle => None,
                Activity::Halted(_) => None,
                _ => {
                    match reply {
                        Reply::Failed(kind) => {
                            self.activity = Activity::Halted(Fault::Failed(Error::SpiError(kind)));
                        },
                        Reply::Word(word) => match self.activity {
                            Activity::Status => {
                                self.interrupt(ISR { bits: word });
                            },
                            Activity::MaskFetch { isr } => {
                                self.activity = Activity::Mask {
                                    isr,
                                    ier: (IER { bits: word }).with_receive_enable(false),
                                };
                            },
                            Activity::RearmFetch => {
                                self.activity = Activity::Rearm {
                                    ier: (IER { bits: word }).with_receive_enable(true),
                                };
                            },
                            _ => {},
                        },
                        _ => match self.activity {
                            Activity::Mask { isr, .. } => {
                                self.activity = Activity::Acknowledge { isr };
                            },
                            Activity::Acknowledge { isr } => {
                                self.clear(isr);
                            },
                            Activity::Rearm { .. } => {
                                self.activity = Activity::Idle;
                            },
                            _ => {},
                        },
                    }
                    None
                },
            },
        }
    }
}

} // verus!
