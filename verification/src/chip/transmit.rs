//! Sending a frame: asking the chip for room, then handing the frame over.

use crate::bus::{Operation, Reply, Step};
use crate::chip::Chip;
use crate::error::{Error, MAX_TX_SIZE};
use crate::frame::TXCtrlWord;
use crate::registers::{IER, RXQCR, TXMIR, TXNTFSR, TXQCR};
use vstd::prelude::*;

verus! {

/// The bytes that a frame takes in the chip's transmit memory beyond its own:
/// the control word and the byte count.
pub const TX_OVERHEAD: u16 = 4;

/// Asks whether the chip has room for a frame, and has the chip report when
/// it has, if it has not.
#[derive(Clone, Copy, Debug, PartialEq, Eq)]
pub enum ReadyTx {
    /// Read the free transmit memory; the frame needs `needed` bytes of it.
    Memory { needed: u16 },
    /// Tell the chip how much room the next frame needs.
    Announce { needed: u16 },
    /// Have the chip interrupt once that much room is free.
    Monitor,
    /// There is room, or not yet, or the question failed.
    Done(Result<bool, Error>),
}

impl ReadyTx {
    /// The operation before its first step, for a frame of `tx_len` bytes.
    /// A frame that the chip cannot send is refused at once.
    pub open spec fn start(tx_len: usize) -> ReadyTx {
        if tx_len > MAX_TX_SIZE {
            ReadyTx::Done(Err(Error::TxPacketTooBig { size: tx_len, max: MAX_TX_SIZE }))
        } else {
            ReadyTx::Memory { needed: (tx_len + TX_OVERHEAD) as u16 }
        }
    }

    /// The register that announces the size of the next frame.
    pub open spec fn announcement(needed: u16) -> TXNTFSR {
        TXNTFSR::zeroed().with_tx_next_total_frame_size(needed)
    }

    /// The register that arms the chip's watch on its transmit memory.
    pub open spec fn watch() -> TXQCR {
        TXQCR::zeroed().with_txq_memory_available_monitor(true)
    }

    /// What the operation waits for, or how it ended.
    pub open spec fn position(self) -> Step<Result<bool, Error>> {
        match self {
            ReadyTx::Memory { .. } => Step::Pending(
                Operation::ReadRegister { address: TXMIR::ADDRESS },
            ),
            ReadyTx::Announce { needed } => Step::Pending(
                Operation::WriteRegister {
                    address: TXNTFSR::ADDRESS,
                    word: Self::announcement(needed).bits,
                },
            ),
            ReadyTx::Monitor => Step::Pending(
                Operation::WriteRegister { address: TXQCR::ADDRESS, word: Self::watch().bits },
            ),
            ReadyTx::Done(result) => Step::Ready(result),
        }
    }

    /// Whether the operation waits for something that `reply` answers.
    pub open spec fn admits(self, reply: Reply) -> bool {
        self.position() matches Step::Pending(op) && op.answered_by(reply)
    }

    /// The stage after `reply`. There is room if the frame needs no more
    /// than the chip has free; if it needs more, the chip is told how much
    /// and set to watch, and the answer is no.
    pub open spec fn next(self, reply: Reply) -> ReadyTx {
        match reply {
            Reply::Failed(kind) => ReadyTx::Done(Err(Error::SpiError(kind))),
            Reply::Word(word) => match self {
                ReadyTx::Memory { needed } => if needed > (TXMIR {
                    bits: word,
                }).read_txma_memory_available() {
                    ReadyTx::Announce { needed }
                } else {
                    ReadyTx::Done(Ok(true))
                },
                _ => self,
            },
            _ => match self {
                ReadyTx::Announce { .. } => ReadyTx::Monitor,
                ReadyTx::Monitor => ReadyTx::Done(Ok(false)),
                _ => self,
            },
        }
    }

    /// What the operation waits for, or how it ended.
    pub fn poll(&self) -> (s: Step<Result<bool, Error>>)
        ensures
            s == self.position(),
    {
        match self {
            ReadyTx::Memory { .. } => Step::Pending(
                Operation::ReadRegister { address: TXMIR::ADDRESS },
            ),
            ReadyTx::Announce { needed } => Step::Pending(
                Operation::WriteRegister {
                    address: TXNTFSR::ADDRESS,
                    word: TXNTFSR::zeroed().with_tx_next_total_frame_size(*needed).bits,
                },
            ),
            ReadyTx::Monitor => Step::Pending(
                Operation::WriteRegister {
                    address: TXQCR::ADDRESS,
                    word: TXQCR::zeroed().with_txq_memory_available_monitor(true).bits,
                },
            ),
            ReadyTx::Done(result) => Step::Ready(*result),
        }
    }

    /// Whether `reply` answers what the operation waits for.
    pub fn accepts(&self, reply: &Reply) -> (b: bool)
        ensures
            b == self.admits(*reply),
    {
        match self.poll() {
            Step::Pending(op) => op.is_answered_by(reply),
            Step::Ready(_) => false,
        }
    }

    /// Takes the reply to the pending operation and moves to the next stage.
    pub fn advance(&mut self, reply: Reply)
        requires
            old(self).admits(reply),
        ensures
            *final(self) == old(self).next(reply),
    {
        *self = match reply {
            Reply::Failed(kind) => ReadyTx::Done(Err(Error::SpiError(kind))),
            Reply::Word(word) => match *self {
                ReadyTx::Memory { needed } => if needed > (TXMIR {
                    bits: word,
                }).read_txma_memory_available() {
                    ReadyTx::Announce { needed }
                } else {
                    ReadyTx::Done(Ok(true))
                },
                other => other,
            },
            _ => match *self {
                ReadyTx::Announce { .. } => ReadyTx::Monitor,
                ReadyTx::Monitor => ReadyTx::Done(Ok(false)),
                other => other,
            },
        };
    }
}

/// Where the sending of a frame stands.
#[derive(Clone, Copy, Debug, PartialEq, Eq)]
pub enum TxStage {
    /// Read the interrupt enables, to put them back at the end.
    Snapshot,
    /// Disable every interrupt.
    Mask { ier: IER },
    /// Read the receive queue command register.
    Inspect { ier: IER },
    /// Open the transmit queue for the bulk write.
    Open { ier: IER, rxqcr: RXQCR },
    /// Write the frame.
    Send { ier: IER },
    /// Read the receive queue command register again.
    Reinspect { ier: IER },
    /// Close the transmit queue.
    Close { ier: IER, rxqcr: RXQCR },
    /// Read the transmit queue command register.
    Queue { ier: IER },
    /// Have the chip send the frame.
    Enqueue { ier: IER, txqcr: TXQCR },
    /// Put the interrupt enables back.
    Restore { ier: IER },
    /// The frame is on its way, or the bus failed.
    Done(Result<(), Error>),
}

/// Hands one frame to the chip and has it sent.
#[derive(Clone, Copy, Debug, PartialEq, Eq)]
pub struct Tx {
    /// The tag that the frame carries.
    pub frame_id: u8,
    pub stage: TxStage,
}

impl Tx {
    /// The operation before its first step, for a frame tagged `frame_id`.
    pub open spec fn start(frame_id: u8) -> Tx {
        Tx { frame_id, stage: TxStage::Snapshot }
    }

    /// The control word in front of the frame: it carries the frame's tag and
    /// asks for the transmit interrupt.
    pub open spec fn control(self) -> TXCtrlWord {
        TXCtrlWord { transmit_interrupt_on_completion: true, frame_id: self.frame_id }
    }

    /// What the operation waits for, or how it ended.
    pub open spec fn position(self) -> Step<Result<(), Error>> {
        match self.stage {
            TxStage::Snapshot => Step::Pending(Operation::ReadRegister { address: IER::ADDRESS }),
            TxStage::Mask { .. } => Step::Pending(
                Operation::WriteRegister { address: IER::ADDRESS, word: IER::zeroed().bits },
            ),
            TxStage::Inspect { .. } => Step::Pending(
                Operation::ReadRegister { address: RXQCR::ADDRESS },
            ),
            TxStage::Open { rxqcr, .. } => Step::Pending(
                Operation::WriteRegister { address: RXQCR::ADDRESS, word: rxqcr.bits },
            ),
            TxStage::Send { .. } => Step::Pending(
                Operation::WriteFrame { control: self.control() },
            ),
            TxStage::Reinspect { .. } => Step::Pending(
                Operation::ReadRegister { address: RXQCR::ADDRESS },
            ),
            TxStage::Close { rxqcr, .. } => Step::Pending(
                Operation::WriteRegister { address: RXQCR::ADDRESS, word: rxqcr.bits },
            ),
            TxStage::Queue { .. } => Step::Pending(
                Operation::ReadRegister { address: TXQCR::ADDRESS },
            ),
            TxStage::Enqueue { txqcr, .. } => Step::Pending(
                Operation::WriteRegister { address: TXQCR::ADDRESS, word: txqcr.bits },
            ),
            TxStage::Restore { ier } => Step::Pending(
                Operation::WriteRegister { address: IER::ADDRESS, word: ier.bits },
            ),
            TxStage::Done(result) => Step::Ready(result),
        }
    }

    /// Whether the operation waits for something that `reply` answers.
    pub open spec fn admits(self, reply: Reply) -> bool {
        self.position() matches Step::Pending(op) && op.answered_by(reply)
    }

    /// Whether `reply` reports that the frame has been written to the chip.
    pub open spec fn submits(self, reply: Reply) -> bool {
        self.stage is Send && reply is Done
    }

    /// The stage after `reply`. A bus error ends the operation. The
    /// interrupts stay disabled from the second step to the last, which
    /// restores what the first one read.
    pub open spec fn next(self, reply: Reply) -> Tx {
        let stage = match reply {
            Reply::Failed(kind) => TxStage::Done(Err(Error::SpiError(kind))),
            Reply::Word(word) => match self.stage {
                TxStage::Snapshot => TxStage::Mask { ier: IER { bits: word } },
                TxStage::Inspect { ier } => TxStage::Open {
                    ier,
                    rxqcr: (RXQCR { bits: word }).with_start_dma_access(true),
                },
                TxStage::Reinspect { ier } => TxStage::Close {
                    ier,
                    rxqcr: (RXQCR { bits: word }).with_start_dma_access(false),
                },
                TxStage::Queue { ier } => TxStage::Enqueue {
                    ier,
                    txqcr: (TXQCR { bits: word }).with_manual_enqueue_txq_frame_enable(true),
                },
                _ => self.stage,
            },
            _ => match self.stage {
                TxStage::Mask { ier } => TxStage::Inspect { ier },
                TxStage::Open { ier, .. } => TxStage::Send { ier },
                TxStage::Send { ier } => TxStage::Reinspect { ier },
                TxStage::Close { ier, .. } => TxStage::Queue { ier },
                TxStage::Enqueue { ier, .. } => TxStage::Restore { ier },
                TxStage::Restore { .. } => TxStage::Done(Ok(())),
                _ => self.stage,
            },
        };
        Tx { frame_id: self.frame_id, stage }
    }

    /// What the operation waits for, or how it ended.
    pub fn poll(&self) -> (s: Step<Result<(), Error>>)
        ensures
            s == self.position(),
    {
        match self.stage {
            TxStage::Snapshot => Step::Pending(Operation::ReadRegister { address: IER::ADDRESS }),
            TxStage::Mask { .. } => Step::Pending(
                Operation::WriteRegister { address: IER::ADDRESS, word: IER::zeroed().bits },
            ),
            TxStage::Inspect { .. } => Step::Pending(
                Operation::ReadRegister { address: RXQCR::ADDRESS },
            ),
            TxStage::Open { rxqcr, .. } => Step::Pending(
                Operation::WriteRegister { address: RXQCR::ADDRESS, word: rxqcr.bits },
            ),
            TxStage::Send { .. } => Step::Pending(
                Operation::WriteFrame {
                    control: TXCtrlWord {
                        transmit_interrupt_on_completion: true,
                        frame_id: self.frame_id,
                    },
                },
            ),
            TxStage::Reinspect { .. } => Step::Pending(
                Operation::ReadRegister { address: RXQCR::ADDRESS },
            ),
            TxStage::Close { rxqcr, .. } => Step::Pending(
                Operation::WriteRegister { address: RXQCR::ADDRESS, word: rxqcr.bits },
            ),
            TxStage::Queue { .. } => Step::Pending(
                Operation::ReadRegister { address: TXQCR::ADDRESS },
            ),
            TxStage::Enqueue { txqcr, .. } => Step::Pending(
                Operation::WriteRegister { address: TXQCR::ADDRESS, word: txqcr.bits },
            ),
            TxStage::Restore { ier } => Step::Pending(
                Operation::WriteRegister { address: IER::ADDRESS, word: ier.bits },
            ),
            TxStage::Done(result) => Step::Ready(result),
        }
    }

    /// Whether `reply` answers what the operation waits for.
    pub fn accepts(&self, reply: &Reply) -> (b: bool)
        ensures
            b == self.admits(*reply),
    {
        match self.poll() {
            Step::Pending(op) => op.is_answered_by(reply),
            Step::Ready(_) => false,
        }
    }

    /// Takes the reply to the pending operation and moves to the next stage.
    /// Once the frame has been written, the chip's next frame gets the next
    /// tag; nothing else changes `chip`.
    pub fn advance(&mut self, chip: &mut Chip, reply: Reply)
        requires
            old(self).admits(reply),
        ensures
            *final(self) == old(self).next(reply),
            *final(chip) == if old(self).submits(reply) {
                old(chip).sent()
            } else {
                *old(chip)
            },
    {
        self.stage = match reply {
            Reply::Failed(kind) => TxStage::Done(Err(Error::SpiError(kind))),
            Reply::Word(word) => match self.stage {
                TxStage::Snapshot => TxStage::Mask { ier: IER { bits: word } },
                TxStage::Inspect { ier } => TxStage::Open {
                    ier,
                    rxqcr: (RXQCR { bits: word }).with_start_dma_access(true),
                },
                TxStage::Reinspect { ier } => TxStage::Close {
                    ier,
                    rxqcr: (RXQCR { bits: word }).with_start_dma_access(false),
                },
                TxStage::Queue { ier } => TxStage::Enqueue {
                    ier,
                    txqcr: (TXQCR { bits: word }).with_manual_enqueue_txq_frame_enable(true),
                },
                other => other,
            },
            _ => match self.stage {
                TxStage::Mask { ier } => TxStage::Inspect { ier },
                TxStage::Open { ier, .. } => TxStage::Send { ier },
                TxStage::Send { ier } => {
                    chip.advance_frame_id();
                    TxStage::Reinspect { ier }
                },
                TxStage::Close { ier, .. } => TxStage::Queue { ier },
                TxStage::Enqueue { ier, .. } => TxStage::Restore { ier },
                TxStage::Restore { .. } => TxStage::Done(Ok(())),
                other => other,
            },
        };
    }
}

/// Sending a frame, where the bus works: the interrupts are disabled, the
/// queue is opened, the frame is written once behind a control word that
/// carries `frame_id` and asks for the transmit interrupt, the queue is
/// closed, the chip is told to send, and the interrupt enables are put back
/// as they were found. Only the write of the frame moves the chip's tag on.
pub proof fn lemma_tx_sends(frame_id: u8, ier: IER, before: RXQCR, after: RXQCR, txqcr: TXQCR)
    ensures
        ({
            let s0 = Tx::start(frame_id);
            let s1 = s0.next(Reply::Word(ier.bits));
            let s2 = s1.next(Reply::Done);
            let s3 = s2.next(Reply::Word(before.bits));
            let s4 = s3.next(Reply::Done);
            let s5 = s4.next(Reply::Done);
            let s6 = s5.next(Reply::Word(after.bits));
            let s7 = s6.next(Reply::Done);
            let s8 = s7.next(Reply::Word(txqcr.bits));
            let s9 = s8.next(Reply::Done);
            let s10 = s9.next(Reply::Done);
            &&& s0.position() == Step::<Result<(), Error>>::Pending(
                Operation::ReadRegister { address: IER::ADDRESS },
            )
            &&& s1.position() == Step::<Result<(), Error>>::Pending(
                Operation::WriteRegister { address: IER::ADDRESS, word: 0 },
            )
            &&& s2.position() == Step::<Result<(), Error>>::Pending(
                Operation::ReadRegister { address: RXQCR::ADDRESS },
            )
            &&& s3.position() == Step::<Result<(), Error>>::Pending(
                Operation::WriteRegister {
                    address: RXQCR::ADDRESS,
                    word: before.with_start_dma_access(true).bits,
                },
            )
            &&& s4.position() == Step::<Result<(), Error>>::Pending(
                Operation::WriteFrame {
                    control: TXCtrlWord { transmit_interrupt_on_completion: true, frame_id },
                },
            )
            &&& s5.position() == Step::<Result<(), Error>>::Pending(
                Operation::ReadRegister { address: RXQCR::ADDRESS },
            )
            &&& s6.position() == Step::<Result<(), Error>>::Pending(
                Operation::WriteRegister {
                    address: RXQCR::ADDRESS,
                    word: after.with_start_dma_access(false).bits,
                },
            )
            &&& s7.position() == Step::<Result<(), Error>>::Pending(
                Operation::ReadRegister { address: TXQCR::ADDRESS },
            )
            &&& s8.position() == Step::<Result<(), Error>>::Pending(
                Operation::WriteRegister {
                    address: TXQCR::ADDRESS,
                    word: txqcr.with_manual_enqueue_txq_frame_enable(true).bits,
                },
            )
            &&& s9.position() == Step::<Result<(), Error>>::Pending(
                Operation::WriteRegister { address: IER::ADDRESS, word: ier.bits },
            )
            &&& s10.position() == Step::<Result<(), Error>>::Ready(Ok(()))
            &&& s4.submits(Reply::Done)
            &&& !s0.submits(Reply::Word(ier.bits)) && !s1.submits(Reply::Done) && !s2.submits(
                Reply::Word(before.bits),
            ) && !s3.submits(Reply::Done) && !s5.submits(Reply::Word(after.bits)) && !s6.submits(
                Reply::Done,
            ) && !s7.submits(Reply::Word(txqcr.bits)) && !s8.submits(Reply::Done) && !s9.submits(
                Reply::Done,
            )
        }),
{
}

} // verus!
