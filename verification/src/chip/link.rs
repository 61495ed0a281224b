//! Reading the state of the link and the fill of the receive queue.

use crate::bus::{Operation, Reply, Step};
use crate::error::{Error, LinkState};
use crate::registers::{P1SR, RXFCTR};
use vstd::prelude::*;

verus! {

/// The link state that the port status register reports.
#[verifier::allow_in_spec]
pub fn link_of(p1sr: P1SR) -> LinkState
    returns
        (if p1sr.read_link_good() {
            LinkState::Up
        } else {
            LinkState::Down
        }),
{
    if p1sr.read_link_good() {
        LinkState::Up
    } else {
        LinkState::Down
    }
}

/// Reads whether the link is up.
#[derive(Clone, Copy, Debug, PartialEq, Eq)]
pub enum LinkQuery {
    /// Read the port status register.
    Status,
    /// The state is known, or the bus failed.
    Done(Result<LinkState, Error>),
}

impl LinkQuery {
    /// What the operation waits for, or how it ended.
    pub open spec fn position(self) -> Step<Result<LinkState, Error>> {
        match self {
            LinkQuery::Status => Step::Pending(Operation::ReadRegister { address: P1SR::ADDRESS }),
            LinkQuery::Done(result) => Step::Ready(result),
        }
    }

    /// Whether the operation waits for something that `reply` answers.
    pub open spec fn admits(self, reply: Reply) -> bool {
        self.position() matches Step::Pending(op) && op.answered_by(reply)
    }

    /// The stage after `reply`: the link is up exactly if the register says
    /// that it is good.
    pub open spec fn next(self, reply: Reply) -> LinkQuery {
        match reply {
            Reply::Failed(kind) => LinkQuery::Done(Err(Error::SpiError(kind))),
            Reply::Word(word) => LinkQuery::Done(Ok(link_of(P1SR { bits: word }))),
            _ => self,
        }
    }

    /// What the operation waits for, or how it ended.
    pub fn poll(&self) -> (s: Step<Result<LinkState, Error>>)
        ensures
            s == self.position(),
    {
        match self {
            LinkQuery::Status => Step::Pending(Operation::ReadRegister { address: P1SR::ADDRESS }),
            LinkQuery::Done(result) => Step::Ready(*result),
        }
    }

    /// Whether `reply` answers what the operation waits for.
    pub fn accepts(&self, reply: &Reply) -> (b: bool)
        ensures
            b == self.admits(*reply),
    {
        match self.poll() {
            Step::Pending(op) => op.is_answered_by(reply),
            Step::Ready(_) => false,
        }
    }

    /// Takes the reply to the pending operation and moves to the next stage.
    pub fn advance(&mut self, reply: Reply)
        requires
            old(self).admits(reply),
        ensures
            *final(self) == old(self).next(reply),
    {
        *self = match reply {
            Reply::Failed(kind) => LinkQuery::Done(Err(Error::SpiError(kind))),
            Reply::Word(word) => LinkQuery::Done(Ok(link_of(P1SR { bits: word }))),
            _ => *self,
        };
    }
}

/// Reads how many frames wait in the chip's receive queue.
#[derive(Clone, Copy, Debug, PartialEq, Eq)]
pub enum FrameCount {
    /// Read the frame count register.
    Count,
    /// The count is known, or the bus failed.
    Done(Result<u8, Error>),
}

impl FrameCount {
    /// What the operation waits for, or how it ended.
    pub open spec fn position(self) -> Step<Result<u8, Error>> {
        match self {
            FrameCount::Count => Step::Pending(
                Operation::ReadRegister { address: RXFCTR::ADDRESS },
            ),
            FrameCount::Done(result) => Step::Ready(result),
        }
    }

    /// Whether the operation waits for something that `reply` answers.
    pub open spec fn admits(self, reply: Reply) -> bool {
        self.position() matches Step::Pending(op) && op.answered_by(reply)
    }

    /// The stage after `reply`: the count is the register's frame count.
    pub open spec fn next(self, reply: Reply) -> FrameCount {
        match reply {
            Reply::Failed(kind) => FrameCount::Done(Err(Error::SpiError(kind))),
            Reply::Word(word) => FrameCount::Done(Ok((RXFCTR { bits: word }).read_rx_frame_count())),
            _ => self,
        }
    }

    /// What the operation waits for, or how it ended.
    pub fn poll(&self) -> (s: Step<Result<u8, Error>>)
        ensures
            s == self.position(),
    {
        match self {
            FrameCount::Count => Step::Pending(
                Operation::ReadRegister { address: RXFCTR::ADDRESS },
            ),
            FrameCount::Done(result) => Step::Ready(*result),
        }
    }

    /// Whether `reply` answers what the operation waits for.
    pub fn accepts(&self, reply: &Reply) -> (b: bool)
        ensures
            b == self.admits(*reply),
    {
        match self.poll() {
            Step::Pending(op) => op.is_answered_by(reply),
            Step::Ready(_) => false,
        }
    }

    /// Takes the reply to the pending operation and moves to the next stage.
    pub fn advance(&mut self, reply: Reply)
        requires
            old(self).admits(reply),
        ensures
            *final(self) == old(self).next(reply),
    {
        *self = match reply {
            Reply::Failed(kind) => FrameCount::Done(Err(Error::SpiError(kind))),
            Reply::Word(word) => FrameCount::Done(Ok((RXFCTR { bits: word }).read_rx_frame_count())),
            _ => *self,
        };
    }
}

} // verus!
