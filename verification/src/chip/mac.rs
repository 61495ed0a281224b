//! Writing and reading the station address.

use crate::bits::lemma_split_join;
use crate::bus::{Operation, Reply, Step};
use crate::error::Error;
use crate::registers::{MARH, MARL, MARM};
use vstd::prelude::*;

verus! {

/// Where the writing of the station address stands.
#[derive(Clone, Copy, Debug, PartialEq, Eq)]
pub enum SetMacStage {
    /// Write the first two bytes.
    High,
    /// Write the middle two bytes.
    Middle,
    /// Write the last two bytes.
    Low,
    /// The address is written, or the bus failed.
    Done(Result<(), Error>),
}

/// Writes the station address to the chip, two bytes at a time.
#[derive(Clone, Copy, Debug, PartialEq, Eq)]
pub struct SetMac {
    /// The address to write.
    pub mac: [u8; 6],
    pub stage: SetMacStage,
}

impl SetMac {
    /// The operation before its first step.
    pub open spec fn start(mac: [u8; 6]) -> SetMac {
        SetMac { mac, stage: SetMacStage::High }
    }

    /// The register that takes the first two bytes of the address.
    pub open spec fn high(self) -> MARH {
        MARH::zeroed().with_marh([self.mac[0], self.mac[1]])
    }

    /// The register that takes the middle two bytes of the address.
    pub open spec fn middle(self) -> MARM {
        MARM::zeroed().with_marm([self.mac[2], self.mac[3]])
    }

    /// The register that takes the last two bytes of the address.
    pub open spec fn low(self) -> MARL {
        MARL::zeroed().with_marl([self.mac[4], self.mac[5]])
    }

    /// What the operation waits for, or how it ended.
    pub open spec fn position(self) -> Step<Result<(), Error>> {
        match self.stage {
            SetMacStage::High => Step::Pending(
                Operation::WriteRegister { address: MARH::ADDRESS, word: self.high().bits },
            ),
            SetMacStage::Middle => Step::Pending(
                Operation::WriteRegister { address: MARM::ADDRESS, word: self.middle().bits },
            ),
            SetMacStage::Low => Step::Pending(
                Operation::WriteRegister { address: MARL::ADDRESS, word: self.low().bits },
            ),
            SetMacStage::Done(result) => Step::Ready(result),
        }
    }

    /// Whether the operation waits for something that `reply` answers.
    pub open spec fn admits(self, reply: Reply) -> bool {
        self.position() matches Step::Pending(op) && op.answered_by(reply)
    }

    /// The stage after `reply`: a bus error ends the operation, a completed
    /// write leads to the next pair of bytes.
    pub open spec fn next(self, reply: Reply) -> SetMac {
        let stage = match reply {
            Reply::Failed(kind) => SetMacStage::Done(Err(Error::SpiError(kind))),
            _ => match self.stage {
                SetMacStage::High => SetMacStage::Middle,
                SetMacStage::Middle => SetMacStage::Low,
                SetMacStage::Low => SetMacStage::Done(Ok(())),
                SetMacStage::Done(result) => SetMacStage::Done(result),
            },
        };
        SetMac { mac: self.mac, stage }
    }

    /// What the operation waits for, or how it ended.
    pub fn poll(&self) -> (s: Step<Result<(), Error>>)
        ensures
            s == self.position(),
    {
        match self.stage {
            SetMacStage::High => Step::Pending(
                Operation::WriteRegister {
                    address: MARH::ADDRESS,
                    word: MARH::zeroed().with_marh([self.mac[0], self.mac[1]]).bits,
                },
            ),
            SetMacStage::Middle => Step::Pending(
                Operation::WriteRegister {
                    address: MARM::ADDRESS,
                    word: MARM::zeroed().with_marm([self.mac[2], self.mac[3]]).bits,
                },
            ),
            SetMacStage::Low => Step::Pending(
                Operation::WriteRegister {
                    address: MARL::ADDRESS,
                    word: MARL::zeroed().with_marl([self.mac[4], self.mac[5]]).bits,
                },
            ),
            SetMacStage::Done(result) => Step::Ready(result),
        }
    }

    /// Whether `reply` answers what the operation waits for.
    pub fn accepts(&self, reply: &Reply) -> (b: bool)
        ensures
            b == self.admits(*reply),
    {
        match self.poll() {
            Step::Pending(op) => op.is_answered_by(reply),
            Step::Ready(_) => false,
        }
    }

    /// Takes the reply to the pending operation and moves to the next stage.
    pub fn advance(&mut self, reply: Reply)
        requires
            old(self).admits(reply),
        ensures
            *final(self) == old(self).next(reply),
    {
        self.stage = match reply {
            Reply::Failed(kind) => SetMacStage::Done(Err(Error::SpiError(kind))),
            _ => match self.stage {
                SetMacStage::High => SetMacStage::Middle,
                SetMacStage::Middle => SetMacStage::Low,
                SetMacStage::Low => SetMacStage::Done(Ok(())),
                SetMacStage::Done(result) => SetMacStage::Done(result),
            },
        };
    }
}

/// Reads the station address from the chip, two bytes at a time.
#[derive(Clone, Copy, Debug, PartialEq, Eq)]
pub enum GetMac {
    /// Read the first two bytes.
    High,
    /// Read the middle two bytes.
    Middle { high: MARH },
    /// Read the last two bytes.
    Low { high: MARH, middle: MARM },
    /// The address is read, or the bus failed.
    Done(Result<[u8; 6], Error>),
}

/// The station address that the three address registers hold.
pub open spec fn mac_of(high: MARH, middle: MARM, low: MARL) -> [u8; 6] {
    [
        high.read_marh()[0],
        high.read_marh()[1],
        middle.read_marm()[0],
        middle.read_marm()[1],
        low.read_marl()[0],
        low.read_marl()[1],
    ]
}

impl GetMac {
    /// What the operation waits for, or how it ended.
    pub open spec fn position(self) -> Step<Result<[u8; 6], Error>> {
        match self {
            GetMac::High => Step::Pending(Operation::ReadRegister { address: MARH::ADDRESS }),
            GetMac::Middle { .. } => Step::Pending(
                Operation::ReadRegister { address: MARM::ADDRESS },
            ),
            GetMac::Low { .. } => Step::Pending(Operation::ReadRegister { address: MARL::ADDRESS }),
            GetMac::Done(result) => Step::Ready(result),
        }
    }

    /// Whether the operation waits for something that `reply` answers.
    pub open spec fn admits(self, reply: Reply) -> bool {
        self.position() matches Step::Pending(op) && op.answered_by(reply)
    }

    /// The stage after `reply`: a bus error ends the operation, a word is
    /// kept, and the third word completes the address.
    pub open spec fn next(self, reply: Reply) -> GetMac {
        match reply {
            Reply::Failed(kind) => GetMac::Done(Err(Error::SpiError(kind))),
            Reply::Word(word) => match self {
                GetMac::High => GetMac::Middle { high: MARH { bits: word } },
                GetMac::Middle { high } => GetMac::Low { high, middle: MARM { bits: word } },
                GetMac::Low { high, middle } => GetMac::Done(
                    Ok(mac_of(high, middle, MARL { bits: word })),
                ),
                GetMac::Done(result) => GetMac::Done(result),
            },
            _ => self,
        }
    }

    /// What the operation waits for, or how it ended.
    pub fn poll(&self) -> (s: Step<Result<[u8; 6], Error>>)
        ensures
            s == self.position(),
    {
        match self {
            GetMac::High => Step::Pending(Operation::ReadRegister { address: MARH::ADDRESS }),
            GetMac::Middle { .. } => Step::Pending(
                Operation::ReadRegister { address: MARM::ADDRESS },
            ),
            GetMac::Low { .. } => Step::Pending(Operation::ReadRegister { address: MARL::ADDRESS }),
            GetMac::Done(result) => Step::Ready(*result),
        }
    }

    /// Whether `reply` answers what the operation waits for.
    pub fn accepts(&self, reply: &Reply) -> (b: bool)
        ensures
            b == self.admits(*reply),
    {
        match self.poll() {
            Step::Pending(op) => op.is_answered_by(reply),
            Step::Ready(_) => false,
        }
    }

    /// Takes the reply to the pending operation and moves to the next stage.
    pub fn advance(&mut self, reply: Reply)
        requires
            old(self).admits(reply),
        ensures
            *final(self) == old(self).next(reply),
    {
        *self = match reply {
            Reply::Failed(kind) => GetMac::Done(Err(Error::SpiError(kind))),
            Reply::Word(word) => match *self {
                GetMac::High => GetMac::Middle { high: MARH { bits: word } },
                GetMac::Middle { high } => GetMac::Low { high, middle: MARM { bits: word } },
                GetMac::Low { high, middle } => {
                    let h = high.read_marh();
                    let m = middle.read_marm();
                    let l = (MARL { bits: word }).read_marl();
                    GetMac::Done(Ok([h[0], h[1], m[0], m[1], l[0], l[1]]))
                },
                GetMac::Done(result) => GetMac::Done(result),
            },
            _ => *self,
        };
    }
}

/// Writing a station address and reading it back yields the same address.
/// The three writes go to the three address registers in turn and end well;
/// if the three reads then return what was written, they end with the
/// address that was handed in.
pub proof fn lemma_mac_round_trip(mac: [u8; 6])
    ensures
        ({
            let set = SetMac::start(mac);
            let second = set.next(Reply::Done);
            let third = second.next(Reply::Done);
            &&& set.position() == Step::<Result<(), Error>>::Pending(
                Operation::WriteRegister { address: MARH::ADDRESS, word: set.high().bits },
            )
            &&& second.position() == Step::<Result<(), Error>>::Pending(
                Operation::WriteRegister { address: MARM::ADDRESS, word: set.middle().bits },
            )
            &&& third.position() == Step::<Result<(), Error>>::Pending(
                Operation::WriteRegister { address: MARL::ADDRESS, word: set.low().bits },
            )
            &&& third.next(Reply::Done).position() == Step::<Result<(), Error>>::Ready(Ok(()))
            &&& GetMac::High.next(Reply::Word(set.high().bits)).next(
                Reply::Word(set.middle().bits),
            ).next(Reply::Word(set.low().bits)) == GetMac::Done(Ok(mac))
        }),
{
    lemma_split_join(mac[1], mac[0]);
    lemma_split_join(mac[3], mac[2]);
    lemma_split_join(mac[5], mac[4]);
    let set = SetMac::start(mac);
    assert(mac_of(set.high(), set.middle(), set.low()) =~= mac);
}

} // verus!
