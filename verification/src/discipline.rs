//! What holds of the event loop at every step.
//!
//! The loop keeps three promises. A tick costs one read of the port status
//! and changes nothing. A frame that found no room is not followed by
//! another attempt until the chip reports room. And the chip's receive
//! interrupt is disabled exactly while received frames are pending.

use crate::bits::lemma_flag_with_flag;
use crate::bus::{Operation, Reply, Step};
use crate::chip::link::link_of;
use crate::chip::{ReadyTx, RxStage, TxStage};
use crate::config::interrupts;
use crate::registers::{read_only, IER, ISR, P1SR, RXFCTR};
use crate::runner::{Activity, Demand, Event, Notice, Runner};
use crate::setup::Setup;
use vstd::prelude::*;

verus! {

/// A tick of the timer reads the port status register, once, and nothing
/// else: the loop tells the network stack the state of the link and waits
/// again, with its flags and the chip's state as they were.
pub proof fn lemma_tick_reads_link_once(runner: Runner, p1sr: P1SR)
    requires
        runner.wf(),
        runner.activity is Idle,
    ensures
        ({
            let ticked = runner.next(Event::Tick);
            let reply = Event::Reply(Reply::Word(p1sr.bits));
            &&& runner.admits(Event::Tick)
            &&& ticked.position() == Demand::Bus(Operation::ReadRegister { address: P1SR::ADDRESS })
            &&& ticked.admits(reply)
            &&& ticked.notice(reply) == Some(Notice::LinkState(link_of(p1sr)))
            &&& ticked.next(reply) == runner
        }),
{
}

/// Without room for a frame the loop stops asking. Where the chip has
/// less free memory than the frame needs, the loop announces the frame's
/// size, arms the chip's watch, and then waits without taking a frame to
/// send.
pub proof fn lemma_no_room_closes_gate(runner: Runner, query: ReadyTx, reply: Reply)
    requires
        runner.wf(),
        runner.activity == (Activity::Room { room: query }),
        query.admits(reply),
        query.next(reply) == ReadyTx::Done(Ok(false)),
    ensures
        ({
            let after = runner.next(Event::Reply(reply));
            &&& !after.tx_space_available
            &&& after.position() matches Demand::Wait { transmit, .. } && !transmit
            &&& !after.admits(Event::Transmit { len: 0 })
        }),
{
}

/// Back-pressure. While the chip has refused a frame for want of room, the
/// loop neither sends a frame nor asks for room, whatever happens; and the
/// only thing that lets it ask again is an interrupt status that reports
/// room.
pub proof fn lemma_back_pressure(runner: Runner, event: Event)
    requires
        runner.admits(event),
        !runner.tx_space_available,
    ensures
        !runner.transmitting(),
        !(runner.position() matches Demand::Bus(Operation::WriteFrame { .. })),
        !runner.next(event).transmitting(),
        runner.next(event).tx_space_available ==> runner.activity is Status && (event matches Event::Reply(
            Reply::Word(word),
        ) && (ISR { bits: word }).read_transmit_space_available()),
{
}

/// A frame is written to the chip only while the loop is sending, and it
/// is sending only while both transmit flags are set.
pub proof fn lemma_frames_leave_in_turn(runner: Runner)
    requires
        runner.wf(),
        runner.position() matches Demand::Bus(Operation::WriteFrame { .. }),
    ensures
        runner.activity is Transmit,
        runner.tx_space_available,
        runner.tx_done,
{
}

/// Every step of the loop leads from a proper state to a proper state.
pub proof fn lemma_steps_keep_the_loop_proper(runner: Runner, event: Event)
    requires
        runner.admits(event),
    ensures
        runner.next(event).wf(),
        Runner::start().wf(),
{
}

/// The driver writes to no register that is there to be read only: not
/// while it starts, and not in its loop.
pub proof fn lemma_read_only_registers_are_spared(setup: Setup, runner: Runner)
    ensures
        setup.position() matches Step::Pending(Operation::WriteRegister { address, .. })
            ==> !read_only(address),
        runner.position() matches Demand::Bus(Operation::WriteRegister { address, .. })
            ==> !read_only(address),
{
}

/// The chip's frame count is read only after a receive interrupt was
/// cleared, which is when the chip has brought it up to date, and only
/// while no frame of an earlier interrupt is pending.
pub proof fn lemma_count_follows_acknowledge(runner: Runner, event: Event)
    requires
        runner.admits(event),
        runner.next(event).activity is Count,
    ensures
        runner.activity matches Activity::Acknowledge { isr } && isr.read_receive(),
        event == Event::Reply(Reply::Done),
        runner.rx_pending == 0,
        runner.next(event).position() == Demand::Bus(
            Operation::ReadRegister { address: RXFCTR::ADDRESS },
        ),
{
}

/// Whether the frame that the loop is about to write, if there is one,
/// carries the chip's next tag.
pub open spec fn tagged(runner: Runner) -> bool {
    runner.activity matches Activity::Transmit { tx } ==> (tx.stage matches TxStage::Snapshot
        || tx.stage matches TxStage::Mask { .. } || tx.stage matches TxStage::Inspect { .. }
        || tx.stage matches TxStage::Open { .. } || tx.stage matches TxStage::Send { .. })
        ==> tx.frame_id == runner.chip.next_frame_id
}

/// Frames are tagged in turn. The frame that the loop writes carries the
/// chip's next tag; the tag moves on by one, modulo the number of tags, when
/// a frame has been written, and at no other time.
pub proof fn lemma_frames_are_tagged_in_turn(runner: Runner, event: Event)
    requires
        tagged(runner),
        runner.admits(event),
    ensures
        tagged(runner.next(event)),
        tagged(Runner::start()),
        runner.position() matches Demand::Bus(Operation::WriteFrame { control })
            ==> control.frame_id == runner.chip.next_frame_id
            && control.transmit_interrupt_on_completion,
        runner.next(event).chip == if runner.position() matches Demand::Bus(
            Operation::WriteFrame { .. },
        ) && event == Event::Reply(Reply::Done) {
            runner.chip.sent()
        } else {
            runner.chip
        },
{
}

/// Whether the chip's receive interrupt is enabled exactly if no received
/// frame is pending.
pub open spec fn at_rest(runner: Runner, ier: IER) -> bool {
    ier.read_receive_enable() == (runner.rx_pending == 0)
}

/// What relates the loop to `ier`, the chip's interrupt enable register,
/// at each of its steps. While the loop waits, the receive interrupt is
/// enabled exactly if no frame is pending. While it handles a receive
/// interrupt or takes frames from the chip, the interrupt is disabled.
/// What the loop has read of the register, to put it back later, agrees
/// with that.
pub open spec fn disciplined(runner: Runner, ier: IER) -> bool {
    match runner.activity {
        Activity::MaskFetch { isr } => at_rest(runner, ier) && isr.read_receive(),
        Activity::Mask { isr, ier: word } => isr.read_receive() && !word.read_receive_enable(),
        Activity::Acknowledge { isr } => if isr.read_receive() {
            !ier.read_receive_enable()
        } else {
            at_rest(runner, ier)
        },
        Activity::Count { .. } => !ier.read_receive_enable() && runner.rx_pending == 0,
        Activity::Transmit { tx } => match tx.stage {
            TxStage::Snapshot => at_rest(runner, ier),
            TxStage::Mask { ier: kept } => at_rest(runner, kept),
            TxStage::Inspect { ier: kept } => at_rest(runner, kept),
            TxStage::Open { ier: kept, .. } => at_rest(runner, kept),
            TxStage::Send { ier: kept } => at_rest(runner, kept),
            TxStage::Reinspect { ier: kept } => at_rest(runner, kept),
            TxStage::Close { ier: kept, .. } => at_rest(runner, kept),
            TxStage::Queue { ier: kept } => at_rest(runner, kept),
            TxStage::Enqueue { ier: kept, .. } => at_rest(runner, kept),
            TxStage::Restore { ier: kept } => at_rest(runner, kept),
            TxStage::Done(_) => true,
        },
        Activity::Receive { rx } => !ier.read_receive_enable() && match rx.stage {
            RxStage::Mask { ier: kept } => !kept.read_receive_enable(),
            RxStage::Status { ier: kept } => !kept.read_receive_enable(),
            RxStage::Count { ier: kept, .. } => !kept.read_receive_enable(),
            RxStage::Pointer { ier: kept, .. } => !kept.read_receive_enable(),
            RxStage::Rewind { ier: kept, .. } => !kept.read_receive_enable(),
            RxStage::Inspect { ier: kept, .. } => !kept.read_receive_enable(),
            RxStage::Open { ier: kept, .. } => !kept.read_receive_enable(),
            RxStage::Fetch { ier: kept, .. } => !kept.read_receive_enable(),
            RxStage::Reinspect { ier: kept, .. } => !kept.read_receive_enable(),
            RxStage::Close { ier: kept, .. } => !kept.read_receive_enable(),
            RxStage::Restore { ier: kept, .. } => !kept.read_receive_enable(),
            _ => true,
        },
        Activity::RearmFetch => runner.rx_pending == 0,
        Activity::Rearm { ier: word } => runner.rx_pending == 0 && word.read_receive_enable(),
        Activity::Halted(_) => true,
        _ => at_rest(runner, ier),
    }
}

/// The chip's interrupt enable register after the loop's pending bus
/// operation was answered by `event`: what a completed write to the
/// register wrote, and what it held before otherwise.
pub open spec fn ier_after(runner: Runner, ier: IER, event: Event) -> IER {
    match (runner.position(), event) {
        (Demand::Bus(Operation::WriteRegister { address, word }), Event::Reply(Reply::Done)) => {
            if address == IER::ADDRESS {
                IER { bits: word }
            } else {
                ier
            }
        },
        _ => ier,
    }
}

/// Whether `event` is what a chip whose interrupt enable register holds
/// `ier` can answer: a read of that register returns `ier`.
pub open spec fn faithful(runner: Runner, ier: IER, event: Event) -> bool {
    runner.position() == Demand::Bus(Operation::ReadRegister { address: IER::ADDRESS })
        ==> (event matches Event::Reply(Reply::Word(word)) ==> word == ier.bits)
}

/// Whether `event` tells the loop, after a receive interrupt, that the
/// chip holds no frame at all.
pub open spec fn empty_handed(runner: Runner, event: Event) -> bool {
    runner.activity is Count && (event matches Event::Reply(Reply::Word(word)) && (RXFCTR {
        bits: word,
    }).read_rx_frame_count() == 0)
}

/// Bring-up leaves the receive interrupt enabled, whatever the register
/// held, so the loop starts out disciplined.
pub proof fn lemma_discipline_begins(word: u16)
    ensures
        interrupts(IER { bits: word }).read_receive_enable(),
        disciplined(Runner::start(), interrupts(IER { bits: word })),
{
    let a = (IER { bits: word }).with_link_change_enable(true);
    let b = a.with_transmit_space_available_enable(true);
    let c = b.with_transmit_enable(true);
    let d = c.with_receive_enable(true);
    let e = d.with_receive_overrun_enable(true);
    lemma_flag_with_flag(c.bits, 13, true, 13);
    lemma_flag_with_flag(d.bits, 11, true, 13);
    lemma_flag_with_flag(e.bits, 1, true, 13);
}

/// Receive-interrupt discipline. Every step of the loop keeps it
/// disciplined, as long as the chip answers faithfully and does not raise
/// a receive interrupt empty-handed. So whenever the loop waits, the
/// chip's receive interrupt is enabled exactly if no received frame is
/// pending.
pub proof fn lemma_receive_interrupt_discipline(runner: Runner, ier: IER, event: Event)
    requires
        disciplined(runner, ier),
        runner.admits(event),
        faithful(runner, ier, event),
        !empty_handed(runner, event),
    ensures
        disciplined(runner.next(event), ier_after(runner, ier, event)),
        runner.next(event).activity is Idle ==> (ier_after(
            runner,
            ier,
            event,
        ).read_receive_enable() <==> runner.next(event).rx_pending == 0),
{
    assert(0u16 & (1u16 << 13u8) == 0) by (bit_vector);
    if let Event::Reply(Reply::Word(word)) = event {
        lemma_flag_with_flag(word, 13, false, 13);
        lemma_flag_with_flag(word, 13, true, 13);
    }
}

} // verus!
