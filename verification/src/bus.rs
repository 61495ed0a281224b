//! The vocabulary between the driver and whoever owns the bus.
//!
//! The driver names one [`Operation`] at a time. Its caller carries the
//! operation out and hands back a [`Reply`].

use crate::frame::TXCtrlWord;
use embedded_hal::spi::ErrorKind;
use vstd::prelude::*;

verus! {

/// One thing that the driver asks of its environment.
#[derive(Clone, Copy, Debug, PartialEq, Eq, Structural)]
pub enum Operation {
    /// Read the register at `address` in one SPI transaction.
    ReadRegister { address: u8 },
    /// Write `word` to the register at `address` in one SPI transaction.
    WriteRegister { address: u8, word: u16 },
    /// Write the outgoing frame, behind `control`, to the transmit queue in
    /// one SPI transaction.
    WriteFrame { control: TXCtrlWord },
    /// Read the frame of `byte_count` bytes at the head of the receive queue
    /// in one SPI transaction, and store its payload.
    ReadFrame { byte_count: u16 },
    /// Let `millis` milliseconds pass.
    Delay { millis: u32 },
    /// Drive the chip's reset line high.
    ReleaseReset,
}

/// What came of an [`Operation`].
#[derive(Clone, Copy, Debug, PartialEq, Eq)]
pub enum Reply {
    /// The operation is complete and there is nothing to report.
    Done,
    /// The word that a register read returned.
    Word(u16),
    /// The status and byte count that a frame read returned in front of the
    /// frame.
    Frame { status: u16, byte_count: u16 },
    /// The SPI bus reported an error.
    Failed(ErrorKind),
}

/// Where an operation on the chip stands: it waits for a bus operation, or it
/// has ended with a result.
#[derive(Debug, PartialEq, Eq)]
pub enum Step<T> {
    Pending(Operation),
    Ready(T),
}

impl Operation {
    /// Whether the operation goes over the SPI bus, and so may fail there.
    pub open spec fn on_bus(self) -> bool {
        !(self is Delay || self is ReleaseReset)
    }

    /// Whether `reply` is an answer to this operation: a bus error to a bus
    /// operation, a word to a register read, a frame header to a frame read,
    /// and a bare completion to everything else.
    pub open spec fn answered_by(self, reply: Reply) -> bool {
        match reply {
            Reply::Failed(_) => self.on_bus(),
            Reply::Word(_) => self is ReadRegister,
            Reply::Frame { .. } => self is ReadFrame,
            Reply::Done => !(self is ReadRegister || self is ReadFrame),
        }
    }

    /// Computes [`Operation::answered_by`].
    pub fn is_answered_by(&self, reply: &Reply) -> (b: bool)
        ensures
            b == self.answered_by(*reply),
    {
        match reply {
            Reply::Failed(_) => !matches!(self, Operation::Delay { .. } | Operation::ReleaseReset),
            Reply::Word(_) => matches!(self, Operation::ReadRegister { .. }),
            Reply::Frame { .. } => matches!(self, Operation::ReadFrame { .. }),
            Reply::Done => !matches!(
                self,
                Operation::ReadRegister { .. } | Operation::ReadFrame { .. }
            ),
        }
    }
}

} // verus!
