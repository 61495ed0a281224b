//! The operations on the chip.
//!
//! Each operation is a value that stands at one of its stages. `poll` tells
//! what it waits for, or how it ended; `advance` takes the reply and moves it
//! on.

pub mod init;
pub mod link;
pub mod mac;
pub mod receive;
pub mod transmit;

pub use init::{Init, InitStage, Setting};
pub use link::{FrameCount, LinkQuery};
pub use mac::{GetMac, SetMac, SetMacStage};
pub use receive::{Rx, RxStage};
pub use transmit::{ReadyTx, Tx, TxStage};

use crate::error::MAX_TX_SIZE;
use transmit::TX_OVERHEAD;
use vstd::prelude::*;

verus! {

/// How many tags there are for outgoing frames: they run from 0 to one less
/// and start again.
pub const FRAME_IDS: u8 = 32;

/// What the driver remembers of the chip between operations.
#[derive(Clone, Copy, Debug, PartialEq, Eq, Structural)]
pub struct Chip {
    /// The tag of the next outgoing frame.
    pub next_frame_id: u8,
}

impl Chip {
    /// The chip after a frame has been written to it: the next frame gets
    /// the next tag, and tag 0 follows the last one.
    pub open spec fn sent(self) -> Chip {
        Chip {
            next_frame_id: if self.next_frame_id >= FRAME_IDS - 1 {
                0u8
            } else {
                (self.next_frame_id + 1) as u8
            },
        }
    }

    /// The chip after `n` frames have been written to it.
    pub open spec fn sent_times(self, n: nat) -> Chip
        decreases n,
    {
        if n == 0 {
            self
        } else {
            self.sent_times((n - 1) as nat).sent()
        }
    }

    /// The chip as it is after reset: the first frame is tagged 0.
    pub fn new() -> (chip: Chip)
        ensures
            chip.next_frame_id == 0,
    {
        Chip { next_frame_id: 0 }
    }

    /// Moves on to the tag of the next frame.
    pub fn advance_frame_id(&mut self)
        ensures
            *final(self) == old(self).sent(),
    {
        if self.next_frame_id >= FRAME_IDS - 1 {
            self.next_frame_id = 0;
        } else {
            self.next_frame_id += 1;
        }
    }

    /// Begins to bring the chip up. Broadcast frames will be received if
    /// `broadcast` says so.
    pub fn init(&self, broadcast: bool) -> (op: Init)
        ensures
            op == Init::start(broadcast),
    {
        Init { broadcast, stage: InitStage::AssertReset }
    }

    /// Begins to write the station address `mac_addr` to the chip.
    pub fn set_mac(&self, mac_addr: [u8; 6]) -> (op: SetMac)
        ensures
            op == SetMac::start(mac_addr),
    {
        SetMac { mac: mac_addr, stage: SetMacStage::High }
    }

    /// Begins to read the station address from the chip.
    pub fn get_mac(&self) -> (op: GetMac)
        ensures
            op == GetMac::High,
    {
        GetMac::High
    }

    /// Begins to read the state of the link.
    pub fn link_state(&self) -> (op: LinkQuery)
        ensures
            op == LinkQuery::Status,
    {
        LinkQuery::Status
    }

    /// Begins to ask whether the chip has room for a frame of `tx_len`
    /// bytes.
    pub fn ready_tx(&self, tx_len: usize) -> (op: ReadyTx)
        ensures
            op == ReadyTx::start(tx_len),
    {
        if tx_len > MAX_TX_SIZE as usize {
            ReadyTx::Done(Err(crate::error::Error::TxPacketTooBig { size: tx_len, max: MAX_TX_SIZE }))
        } else {
            ReadyTx::Memory { needed: tx_len as u16 + TX_OVERHEAD }
        }
    }

    /// Begins to send a frame, for which the chip has room. The frame
    /// carries the chip's next tag.
    pub fn tx(&self) -> (op: Tx)
        ensures
            op == Tx::start(self.next_frame_id),
    {
        Tx { frame_id: self.next_frame_id, stage: TxStage::Snapshot }
    }

    /// Begins to take a frame from the chip into a buffer of `capacity`
    /// bytes.
    pub fn rx(&self, capacity: usize) -> (op: Rx)
        ensures
            op == Rx::start(capacity),
    {
        Rx { capacity, stage: RxStage::Snapshot }
    }

    /// Begins to read how many frames wait in the receive queue.
    pub fn rx_frames_available(&self) -> (op: FrameCount)
        ensures
            op == FrameCount::Count,
    {
        FrameCount::Count
    }
}

/// Starting from tag 0, the frame after `n` frames carries the tag `n`
/// modulo the number of tags.
pub proof fn lemma_frame_id_counts(n: nat)
    ensures
        (Chip { next_frame_id: 0 }).sent_times(n).next_frame_id == n % (FRAME_IDS as nat),
    decreases n,
{
    if n > 0 {
        lemma_frame_id_counts((n - 1) as nat);
    }
}

} // verus!
