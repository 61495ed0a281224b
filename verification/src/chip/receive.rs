//! Receiving a frame: checking the frame at the head of the chip's queue,
//! then reading it out.

use crate::bits::{lemma_field_with_field, lemma_flag_with_field, low_mask};
use crate::bus::{Operation, Reply, Step};
use crate::error::Error;
use crate::frame::CRC_LEN;
use crate::registers::{IER, RXFDPR, RXFHBCR, RXFHSR, RXQCR};
use vstd::prelude::*;

verus! {

/// Whether the chip found fault with the frame whose status is `status`: a
/// wrong check sequence, a wrong length, an error of the PHY, or a wrong
/// checksum.
#[verifier::allow_in_spec]
pub fn damaged(status: RXFHSR) -> bool
    returns
        (status.read_crc_error() || status.read_runt_frame() || status.read_frame_too_long()
            || status.read_mii_error() || status.read_udp_checksum_status()
            || status.read_tcp_checksum_status() || status.read_ip_checksum_status()
            || status.read_icmp_checksum_status()),
{
    status.read_crc_error() || status.read_runt_frame() || status.read_frame_too_long()
        || status.read_mii_error() || status.read_udp_checksum_status()
        || status.read_tcp_checksum_status() || status.read_ip_checksum_status()
        || status.read_icmp_checksum_status()
}

/// Where the reception of a frame stands.
#[derive(Clone, Copy, Debug, PartialEq, Eq)]
pub enum RxStage {
    /// Read the interrupt enables, to put them back at the end.
    Snapshot,
    /// Disable every interrupt.
    Mask { ier: IER },
    /// Read the status of the frame at the head of the queue.
    Status { ier: IER },
    /// Read the byte count of that frame.
    Count { ier: IER, status: RXFHSR },
    /// The frame is damaged: read the receive queue command register.
    Discard,
    /// Have the chip drop the damaged frame.
    Release { rxqcr: RXQCR },
    /// Read the receive frame pointer.
    Pointer { ier: IER, status: RXFHSR, count: u16 },
    /// Set the pointer to the start of the frame.
    Rewind { ier: IER, status: RXFHSR, count: u16, rxfdpr: RXFDPR },
    /// Read the receive queue command register.
    Inspect { ier: IER, status: RXFHSR, count: u16 },
    /// Open the receive queue for the bulk read.
    Open { ier: IER, status: RXFHSR, count: u16, rxqcr: RXQCR },
    /// Read the frame.
    Fetch { ier: IER, status: RXFHSR, count: u16 },
    /// Read the receive queue command register again.
    Reinspect { ier: IER, count: u16 },
    /// Close the receive queue.
    Close { ier: IER, count: u16, rxqcr: RXQCR },
    /// Put the interrupt enables back.
    Restore { ier: IER, count: u16 },
    /// The frame's payload is stored and this is its length, or there was
    /// no frame to store.
    Done(Result<usize, Error>),
}

impl RxStage {
    /// The byte count of the frame that is being read, once it is known.
    pub open spec fn count(self) -> Option<u16> {
        match self {
            RxStage::Pointer { count, .. } => Some(count),
            RxStage::Rewind { count, .. } => Some(count),
            RxStage::Inspect { count, .. } => Some(count),
            RxStage::Open { count, .. } => Some(count),
            RxStage::Fetch { count, .. } => Some(count),
            RxStage::Reinspect { count, .. } => Some(count),
            RxStage::Close { count, .. } => Some(count),
            RxStage::Restore { count, .. } => Some(count),
            _ => None,
        }
    }
}

/// Takes one frame from the chip into a buffer of `capacity` bytes.
#[derive(Clone, Copy, Debug, PartialEq, Eq)]
pub struct Rx {
    /// The size of the buffer that takes the payload.
    pub capacity: usize,
    pub stage: RxStage,
}

impl Rx {
    /// The operation before its first step.
    pub open spec fn start(capacity: usize) -> Rx {
        Rx { capacity, stage: RxStage::Snapshot }
    }

    /// Whether a frame of `count` bytes, check sequence included, can be
    /// read: it holds at least the check sequence, and it is no longer than
    /// the buffer.
    pub open spec fn fits(self, count: u16) -> bool {
        CRC_LEN <= count <= self.capacity
    }

    /// Whether the frame that is being read, if any, can be read.
    pub open spec fn wf(self) -> bool {
        self.stage.count() matches Some(count) ==> self.fits(count)
    }

    /// What the operation waits for, or how it ended.
    pub open spec fn position(self) -> Step<Result<usize, Error>> {
        match self.stage {
            RxStage::Snapshot => Step::Pending(Operation::ReadRegister { address: IER::ADDRESS }),
            RxStage::Mask { .. } => Step::Pending(
                Operation::WriteRegister { address: IER::ADDRESS, word: IER::zeroed().bits },
            ),
            RxStage::Status { .. } => Step::Pending(
                Operation::ReadRegister { address: RXFHSR::ADDRESS },
            ),
            RxStage::Count { .. } => Step::Pending(
                Operation::ReadRegister { address: RXFHBCR::ADDRESS },
            ),
            RxStage::Discard => Step::Pending(Operation::ReadRegister { address: RXQCR::ADDRESS }),
            RxStage::Release { rxqcr } => Step::Pending(
                Operation::WriteRegister { address: RXQCR::ADDRESS, word: rxqcr.bits },
            ),
            RxStage::Pointer { .. } => Step::Pending(
                Operation::ReadRegister { address: RXFDPR::ADDRESS },
            ),
            RxStage::Rewind { rxfdpr, .. } => Step::Pending(
                Operation::WriteRegister { address: RXFDPR::ADDRESS, word: rxfdpr.bits },
            ),
            RxStage::Inspect { .. } => Step::Pending(
                Operation::ReadRegister { address: RXQCR::ADDRESS },
            ),
            RxStage::Open { rxqcr, .. } => Step::Pending(
                Operation::WriteRegister { address: RXQCR::ADDRESS, word: rxqcr.bits },
            ),
            RxStage::Fetch { count, .. } => Step::Pending(
                Operation::ReadFrame { byte_count: count },
            ),
            RxStage::Reinspect { .. } => Step::Pending(
                Operation::ReadRegister { address: RXQCR::ADDRESS },
            ),
            RxStage::Close { rxqcr, .. } => Step::Pending(
                Operation::WriteRegister { address: RXQCR::ADDRESS, word: rxqcr.bits },
            ),
            RxStage::Restore { ier, .. } => Step::Pending(
                Operation::WriteRegister { address: IER::ADDRESS, word: ier.bits },
            ),
            RxStage::Done(result) => Step::Ready(result),
        }
    }

    /// Whether the chip's answer is one that the driver can go on from. A
    /// complete and undamaged frame must fit the buffer; the header in
    /// front of the frame must repeat the status and the byte count that
    /// the registers gave.
    pub open spec fn sound(self, reply: Reply) -> bool {
        match (self.stage, reply) {
            (RxStage::Count { status, .. }, Reply::Word(word)) => status.read_frame_valid()
                && !damaged(status) ==> self.fits((RXFHBCR { bits: word }).read_receive_byte_count()),
            (RxStage::Fetch { status, count, .. }, Reply::Frame { status: s, byte_count: c }) => s
                == status.bits && (RXFHBCR { bits: c }).read_receive_byte_count() == count,
            _ => true,
        }
    }

    /// Whether the operation stands at a proper stage and waits for
    /// something that `reply` answers soundly.
    pub open spec fn admits(self, reply: Reply) -> bool {
        &&& self.wf()
        &&& self.position() matches Step::Pending(op) && op.answered_by(reply)
        &&& self.sound(reply)
    }

    /// The stage after `reply`. A bus error ends the operation. Without a
    /// complete frame the operation ends with `RxNoFrameAvailable`. A
    /// damaged frame is dropped from the chip's queue and the operation ends
    /// with `RxFrameInvalid`. A good frame is read, and the operation ends
    /// with the length of its payload: the byte count less the check
    /// sequence. The interrupts stay disabled from the second step on, and
    /// only the last step of a good frame restores them.
    pub open spec fn next(self, reply: Reply) -> Rx {
        let stage = match reply {
            Reply::Failed(kind) => RxStage::Done(Err(Error::SpiError(kind))),
            Reply::Word(word) => match self.stage {
                RxStage::Snapshot => RxStage::Mask { ier: IER { bits: word } },
                RxStage::Status { ier } => RxStage::Count { ier, status: RXFHSR { bits: word } },
                RxStage::Count { ier, status } => if !status.read_frame_valid() {
                    RxStage::Done(Err(Error::RxNoFrameAvailable))
                } else if damaged(status) {
                    RxStage::Discard
                } else {
                    RxStage::Pointer {
                        ier,
                        status,
                        count: (RXFHBCR { bits: word }).read_receive_byte_count(),
                    }
                },
                RxStage::Discard => RxStage::Release {
                    rxqcr: (RXQCR { bits: word }).with_release_rx_error_frame(true),
                },
                RxStage::Pointer { ier, status, count } => RxStage::Rewind {
                    ier,
                    status,
                    count,
                    rxfdpr: (RXFDPR { bits: word }).with_rx_frame_pointer(0),
                },
                RxStage::Inspect { ier, status, count } => RxStage::Open {
                    ier,
                    status,
                    count,
                    rxqcr: (RXQCR { bits: word }).with_start_dma_access(true),
                },
                RxStage::Reinspect { ier, count } => RxStage::Close {
                    ier,
                    count,
                    rxqcr: (RXQCR { bits: word }).with_start_dma_access(false),
                },
                _ => self.stage,
            },
            Reply::Frame { .. } => match self.stage {
                RxStage::Fetch { ier, count, .. } => RxStage::Reinspect { ier, count },
                _ => self.stage,
            },
            Reply::Done => match self.stage {
                RxStage::Mask { ier } => RxStage::Status { ier },
                RxStage::Release { .. } => RxStage::Done(Err(Error::RxFrameInvalid)),
                RxStage::Rewind { ier, status, count, .. } => RxStage::Inspect {
                    ier,
                    status,
                    count,
                },
                RxStage::Open { ier, status, count, .. } => RxStage::Fetch { ier, status, count },
                RxStage::Close { ier, count, .. } => RxStage::Restore { ier, count },
                RxStage::Restore { count, .. } => RxStage::Done(Ok((count - CRC_LEN) as usize)),
                _ => self.stage,
            },
        };
        Rx { capacity: self.capacity, stage }
    }

    /// What the operation waits for, or how it ended.
    pub fn poll(&self) -> (s: Step<Result<usize, Error>>)
        ensures
            s == self.position(),
    {
        match self.stage {
            RxStage::Snapshot => Step::Pending(Operation::ReadRegister { address: IER::ADDRESS }),
            RxStage::Mask { .. } => Step::Pending(
                Operation::WriteRegister { address: IER::ADDRESS, word: IER::zeroed().bits },
            ),
            RxStage::Status { .. } => Step::Pending(
                Operation::ReadRegister { address: RXFHSR::ADDRESS },
            ),
            RxStage::Count { .. } => Step::Pending(
                Operation::ReadRegister { address: RXFHBCR::ADDRESS },
            ),
            RxStage::Discard => Step::Pending(Operation::ReadRegister { address: RXQCR::ADDRESS }),
            RxStage::Release { rxqcr } => Step::Pending(
                Operation::WriteRegister { address: RXQCR::ADDRESS, word: rxqcr.bits },
            ),
            RxStage::Pointer { .. } => Step::Pending(
                Operation::ReadRegister { address: RXFDPR::ADDRESS },
            ),
            RxStage::Rewind { rxfdpr, .. } => Step::Pending(
                Operation::WriteRegister { address: RXFDPR::ADDRESS, word: rxfdpr.bits },
            ),
            RxStage::Inspect { .. } => Step::Pending(
                Operation::ReadRegister { address: RXQCR::ADDRESS },
            ),
            RxStage::Open { rxqcr, .. } => Step::Pending(
                Operation::WriteRegister { address: RXQCR::ADDRESS, word: rxqcr.bits },
            ),
            RxStage::Fetch { count, .. } => Step::Pending(
                Operation::ReadFrame { byte_count: count },
            ),
            RxStage::Reinspect { .. } => Step::Pending(
                Operation::ReadRegister { address: RXQCR::ADDRESS },
            ),
            RxStage::Close { rxqcr, .. } => Step::Pending(
                Operation::WriteRegister { address: RXQCR::ADDRESS, word: rxqcr.bits },
            ),
            RxStage::Restore { ier, .. } => Step::Pending(
                Operation::WriteRegister { address: IER::ADDRESS, word: ier.bits },
            ),
            RxStage::Done(result) => Step::Ready(result),
        }
    }

    /// Computes [`Rx::fits`].
    pub fn can_hold(&self, count: u16) -> (b: bool)
        ensures
            b == self.fits(count),
    {
        CRC_LEN <= count && count as usize <= self.capacity
    }

    /// Computes [`Rx::wf`].
    pub fn is_wf(&self) -> (b: bool)
        ensures
            b == self.wf(),
    {
        match self.stage {
            RxStage::Pointer { count, .. } => self.can_hold(count),
            RxStage::Rewind { count, .. } => self.can_hold(count),
            RxStage::Inspect { count, .. } => self.can_hold(count),
            RxStage::Open { count, .. } => self.can_hold(count),
            RxStage::Fetch { count, .. } => self.can_hold(count),
            RxStage::Reinspect { count, .. } => self.can_hold(count),
            RxStage::Close { count, .. } => self.can_hold(count),
            RxStage::Restore { count, .. } => self.can_hold(count),
            _ => true,
        }
    }

    /// Computes [`Rx::sound`].
    pub fn is_sound(&self, reply: &Reply) -> (b: bool)
        ensures
            b == self.sound(*reply),
    {
        match (self.stage, *reply) {
            (RxStage::Count { status, .. }, Reply::Word(word)) => !(status.read_frame_valid()
                && !damaged(status)) || self.can_hold(
                (RXFHBCR { bits: word }).read_receive_byte_count(),
            ),
            (RxStage::Fetch { status, count, .. }, Reply::Frame { status: s, byte_count: c }) => s
                == status.bits && (RXFHBCR { bits: c }).read_receive_byte_count() == count,
            _ => true,
        }
    }

    /// Whether the operation can go on from `reply`. Where it cannot, the
    /// chip and the driver have lost track of each other.
    pub fn accepts(&self, reply: &Reply) -> (b: bool)
        ensures
            b == self.admits(*reply),
    {
        let answered = match self.poll() {
            Step::Pending(op) => op.is_answered_by(reply),
            Step::Ready(_) => false,
        };
        self.is_wf() && answered && self.is_sound(reply)
    }

    /// Takes the reply to the pending operation and moves to the next stage.
    pub fn advance(&mut self, reply: Reply)
        requires
            old(self).admits(reply),
        ensures
            *final(self) == old(self).next(reply),
            final(self).wf(),
    {
        self.stage = match reply {
            Reply::Failed(kind) => RxStage::Done(Err(Error::SpiError(kind))),
            Reply::Word(word) => match self.stage {
                RxStage::Snapshot => RxStage::Mask { ier: IER { bits: word } },
                RxStage::Status { ier } => RxStage::Count { ier, status: RXFHSR { bits: word } },
                RxStage::Count { ier, status } => if !status.read_frame_valid() {
                    RxStage::Done(Err(Error::RxNoFrameAvailable))
                } else if damaged(status) {
                    RxStage::Discard
                } else {
                    RxStage::Pointer {
                        ier,
                        status,
                        count: (RXFHBCR { bits: word }).read_receive_byte_count(),
                    }
                },
                RxStage::Discard => RxStage::Release {
                    rxqcr: (RXQCR { bits: word }).with_release_rx_error_frame(true),
                },
                RxStage::Pointer { ier, status, count } => RxStage::Rewind {
                    ier,
                    status,
                    count,
                    rxfdpr: (RXFDPR { bits: word }).with_rx_frame_pointer(0),
                },
                RxStage::Inspect { ier, status, count } => RxStage::Open {
                    ier,
                    status,
                    count,
                    rxqcr: (RXQCR { bits: word }).with_start_dma_access(true),
                },
                RxStage::Reinspect { ier, count } => RxStage::Close {
                    ier,
                    count,
                    rxqcr: (RXQCR { bits: word }).with_start_dma_access(false),
                },
                other => other,
            },
            Reply::Frame { .. } => match self.stage {
                RxStage::Fetch { ier, count, .. } => RxStage::Reinspect { ier, count },
                other => other,
            },
            Reply::Done => match self.stage {
                RxStage::Mask { ier } => RxStage::Status { ier },
                RxStage::Release { .. } => RxStage::Done(Err(Error::RxFrameInvalid)),
                RxStage::Rewind { ier, status, count, .. } => RxStage::Inspect {
                    ier,
                    status,
                    count,
                },
                RxStage::Open { ier, status, count, .. } => RxStage::Fetch { ier, status, count },
                RxStage::Close { ier, count, .. } => RxStage::Restore { ier, count },
                RxStage::Restore { count, .. } => RxStage::Done(Ok((count - CRC_LEN) as usize)),
                other => other,
            },
        };
    }
}

/// A good frame of `count` bytes on the wire, check sequence included, is
/// delivered with a length of `count` less the check sequence. This holds
/// whatever the chip's registers held before, as long as the bus works and
/// the header in front of the frame repeats what the registers gave. On the
/// way the interrupts are disabled, the frame pointer is set back, the
/// queue is opened for exactly one bulk read of `count` bytes and closed
/// again, and the interrupt enables are put back as they were found.
pub proof fn lemma_rx_delivers(
    capacity: usize,
    ier: IER,
    status: RXFHSR,
    count: RXFHBCR,
    rxfdpr: RXFDPR,
    before: RXQCR,
    after: RXQCR,
)
    requires
        status.read_frame_valid(),
        !damaged(status),
        CRC_LEN <= count.read_receive_byte_count() <= capacity,
    ensures
        ({
            let n = count.read_receive_byte_count();
            let s0 = Rx::start(capacity);
            let s1 = s0.next(Reply::Word(ier.bits));
            let s2 = s1.next(Reply::Done);
            let s3 = s2.next(Reply::Word(status.bits));
            let s4 = s3.next(Reply::Word(count.bits));
            let s5 = s4.next(Reply::Word(rxfdpr.bits));
            let s6 = s5.next(Reply::Done);
            let s7 = s6.next(Reply::Word(before.bits));
            let s8 = s7.next(Reply::Done);
            let s9 = s8.next(Reply::Frame { status: status.bits, byte_count: count.bits });
            let s10 = s9.next(Reply::Word(after.bits));
            let s11 = s10.next(Reply::Done);
            let s12 = s11.next(Reply::Done);
            &&& s0.admits(Reply::Word(ier.bits))
            &&& s1.admits(Reply::Done)
            &&& s2.admits(Reply::Word(status.bits))
            &&& s3.admits(Reply::Word(count.bits))
            &&& s4.admits(Reply::Word(rxfdpr.bits))
            &&& s5.admits(Reply::Done)
            &&& s6.admits(Reply::Word(before.bits))
            &&& s7.admits(Reply::Done)
            &&& s8.admits(Reply::Frame { status: status.bits, byte_count: count.bits })
            &&& s9.admits(Reply::Word(after.bits))
            &&& s10.admits(Reply::Done)
            &&& s11.admits(Reply::Done)
            &&& s1.position() == Step::<Result<usize, Error>>::Pending(
                Operation::WriteRegister { address: IER::ADDRESS, word: 0 },
            )
            &&& s5.position() == Step::<Result<usize, Error>>::Pending(
                Operation::WriteRegister {
                    address: RXFDPR::ADDRESS,
                    word: rxfdpr.with_rx_frame_pointer(0).bits,
                },
            )
            &&& s7.position() == Step::<Result<usize, Error>>::Pending(
                Operation::WriteRegister {
                    address: RXQCR::ADDRESS,
                    word: before.with_start_dma_access(true).bits,
                },
            )
            &&& s8.position() == Step::<Result<usize, Error>>::Pending(
                Operation::ReadFrame { byte_count: n },
            )
            &&& s10.position() == Step::<Result<usize, Error>>::Pending(
                Operation::WriteRegister {
                    address: RXQCR::ADDRESS,
                    word: after.with_start_dma_access(false).bits,
                },
            )
            &&& s11.position() == Step::<Result<usize, Error>>::Pending(
                Operation::WriteRegister { address: IER::ADDRESS, word: ier.bits },
            )
            &&& s12.position() == Step::<Result<usize, Error>>::Ready(Ok((n - CRC_LEN) as usize))
        }),
{
}

/// Setting the frame pointer back to the start of the frame leaves the
/// pointer at 0 and keeps its automatic increment as it was.
pub proof fn lemma_rewind_keeps_auto_increment(rxfdpr: RXFDPR)
    ensures
        rxfdpr.with_rx_frame_pointer(0).read_rx_frame_pointer() == 0,
        rxfdpr.with_rx_frame_pointer(0).read_rx_frame_pointer_auto_increment()
            == rxfdpr.read_rx_frame_pointer_auto_increment(),
{
    lemma_field_with_field(rxfdpr.bits, 0, 11, 0);
    lemma_flag_with_field(rxfdpr.bits, 0, 11, 0, 14);
    assert(0u16 & low_mask(11) == 0) by (bit_vector);
}

/// A frame that the chip found fault with is dropped from the chip's queue
/// and reported as `RxFrameInvalid`; where the chip holds no complete frame,
/// `RxNoFrameAvailable` is reported. Neither reads a frame.
pub proof fn lemma_rx_refuses(
    capacity: usize,
    ier: IER,
    status: RXFHSR,
    count: RXFHBCR,
    rxqcr: RXQCR,
)
    ensures
        ({
            let s4 = Rx::start(capacity).next(Reply::Word(ier.bits)).next(Reply::Done).next(
                Reply::Word(status.bits),
            ).next(Reply::Word(count.bits));
            let s5 = s4.next(Reply::Word(rxqcr.bits));
            &&& !status.read_frame_valid() ==> s4.position() == Step::<
                Result<usize, Error>,
            >::Ready(Err(Error::RxNoFrameAvailable))
            &&& status.read_frame_valid() && damaged(status) ==> {
                &&& s4.position() == Step::<Result<usize, Error>>::Pending(
                    Operation::ReadRegister { address: RXQCR::ADDRESS },
                )
                &&& s5.position() == Step::<Result<usize, Error>>::Pending(
                    Operation::WriteRegister {
                        address: RXQCR::ADDRESS,
                        word: rxqcr.with_release_rx_error_frame(true).bits,
                    },
                )
                &&& s5.next(Reply::Done).position() == Step::<Result<usize, Error>>::Ready(
                    Err(Error::RxFrameInvalid),
                )
            }
        }),
{
}

} // verus!
