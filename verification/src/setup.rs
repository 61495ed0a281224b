//! Starting the driver: the chip leaves reset, is brought up, and gets its
//! station address.

use crate::bus::{Operation, Reply, Step};
use crate::chip::{Chip, Init, InitStage, SetMac};
use crate::config::RESET_MILLIS;
use crate::error::Error;
use crate::runner::Runner;
use vstd::prelude::*;

verus! {

/// Where the start of the driver stands.
#[derive(Clone, Copy, Debug, PartialEq, Eq)]
pub enum SetupStage {
    /// Drive the reset line high.
    Release,
    /// Leave the chip alone until it is ready.
    Settle,
    /// Bring the chip up. Once that has ended well, the station address is
    /// next.
    Init(Init),
    /// Write the station address.
    Address(SetMac),
}

/// The start of the driver, step by step. It ends with the event loop, or
/// with the error that stopped it.
#[derive(Clone, Copy, Debug, PartialEq, Eq)]
pub struct Setup {
    /// The station address.
    pub mac: [u8; 6],
    /// Whether the chip is to receive broadcast frames.
    pub broadcast: bool,
    pub stage: SetupStage,
}

/// The step of the start that a step of one of its parts amounts to: what
/// the part waits for, the start waits for, and the part's error is the
/// start's. Where the last part has ended well, the start has ended with the
/// event loop.
pub open spec fn lifted(step: Step<Result<(), Error>>) -> Step<Result<Runner, Error>> {
    match step {
        Step::Pending(op) => Step::Pending(op),
        Step::Ready(Ok(_)) => Step::Ready(Ok(Runner::start())),
        Step::Ready(Err(e)) => Step::Ready(Err(e)),
    }
}

/// Computes [`lifted`].
pub fn lift(step: Step<Result<(), Error>>) -> (s: Step<Result<Runner, Error>>)
    ensures
        s == lifted(step),
{
    match step {
        Step::Pending(op) => Step::Pending(op),
        Step::Ready(Ok(_)) => Step::Ready(Ok(Runner::new())),
        Step::Ready(Err(e)) => Step::Ready(Err(e)),
    }
}

impl Setup {
    /// The start of the driver before its first step.
    pub open spec fn start(mac: [u8; 6], broadcast: bool) -> Setup {
        Setup { mac, broadcast, stage: SetupStage::Release }
    }

    /// What the start waits for, or how it ended: with the event loop once
    /// the station address is written, with the error of the step that
    /// failed otherwise.
    pub open spec fn position(self) -> Step<Result<Runner, Error>> {
        match self.stage {
            SetupStage::Release => Step::Pending(Operation::ReleaseReset),
            SetupStage::Settle => Step::Pending(Operation::Delay { millis: RESET_MILLIS }),
            SetupStage::Init(op) => match op.stage {
                InitStage::Done(Ok(_)) => lifted(SetMac::start(self.mac).position()),
                _ => lifted(op.position()),
            },
            SetupStage::Address(op) => lifted(op.position()),
        }
    }

    /// Whether the start waits for something that `reply` answers.
    pub open spec fn admits(self, reply: Reply) -> bool {
        self.position() matches Step::Pending(op) && op.answered_by(reply)
    }

    /// The stage after `reply`: the reset line, the wait, bring-up, and
    /// after a bring-up that ended well the station address.
    pub open spec fn next(self, reply: Reply) -> Setup {
        let stage = match self.stage {
            SetupStage::Release => SetupStage::Settle,
            SetupStage::Settle => SetupStage::Init(Init::start(self.broadcast)),
            SetupStage::Init(op) => match op.stage {
                InitStage::Done(Ok(_)) => SetupStage::Address(SetMac::start(self.mac).next(reply)),
                _ => SetupStage::Init(op.next(reply)),
            },
            SetupStage::Address(op) => SetupStage::Address(op.next(reply)),
        };
        Setup { mac: self.mac, broadcast: self.broadcast, stage }
    }

    /// What the start waits for, or how it ended.
    pub fn poll(&self) -> (s: Step<Result<Runner, Error>>)
        ensures
            s == self.position(),
    {
        match self.stage {
            SetupStage::Release => Step::Pending(Operation::ReleaseReset),
            SetupStage::Settle => Step::Pending(Operation::Delay { millis: RESET_MILLIS }),
            SetupStage::Init(op) => match op.stage {
                InitStage::Done(Ok(_)) => lift(Chip::new().set_mac(self.mac).poll()),
                _ => lift(op.poll()),
            },
            SetupStage::Address(op) => lift(op.poll()),
        }
    }

    /// Whether `reply` answers what the start waits for.
    pub fn accepts(&self, reply: &Reply) -> (b: bool)
        ensures
            b == self.admits(*reply),
    {
        match self.poll() {
            Step::Pending(op) => op.is_answered_by(reply),
            Step::Ready(_) => false,
        }
    }

    /// Takes the reply to the pending operation and moves to the next stage.
    pub fn advance(&mut self, reply: Reply)
        requires
            old(self).admits(reply),
        ensures
            *final(self) == old(self).next(reply),
    {
        self.stage = match self.stage {
            SetupStage::Release => SetupStage::Settle,
            SetupStage::Settle => SetupStage::Init(Chip::new().init(self.broadcast)),
            SetupStage::Init(op) => match op.stage {
                InitStage::Done(Ok(_)) => {
                    let mut set_mac = Chip::new().set_mac(self.mac);
                    set_mac.advance(reply);
                    SetupStage::Address(set_mac)
                },
                _ => {
                    let mut init = op;
                    init.advance(reply);
                    SetupStage::Init(init)
                },
            },
            SetupStage::Address(op) => {
                let mut set_mac = op;
                set_mac.advance(reply);
                SetupStage::Address(set_mac)
            },
        };
    }
}

/// Begins to start the driver for a chip that is to have the station
/// address `mac_addr`, and to receive broadcast frames if `broadcast` says
/// so.
pub fn new(mac_addr: [u8; 6], broadcast: bool) -> (setup: Setup)
    ensures
        setup == Setup::start(mac_addr, broadcast),
{
    Setup { mac: mac_addr, broadcast, stage: SetupStage::Release }
}

/// The start of the driver in full, where the bus works and the chip is the
/// expected one with sound memory: the reset line goes high, ten
/// milliseconds pass, the chip is brought up, and its station address is
/// written. A bring-up that fails ends the start with its error, and the
/// station address is not written.
pub proof fn lemma_setup_order(mac: [u8; 6], broadcast: bool, init: Init, reply: Reply)
    requires
        init.admits(reply),
    ensures
        ({
            let s0 = Setup::start(mac, broadcast);
            let s1 = s0.next(Reply::Done);
            let s2 = s1.next(Reply::Done);
            let at = Setup { mac, broadcast, stage: SetupStage::Init(init) };
            let after = at.next(reply);
            &&& s0.position() == Step::<Result<Runner, Error>>::Pending(Operation::ReleaseReset)
            &&& s1.position() == Step::<Result<Runner, Error>>::Pending(
                Operation::Delay { millis: RESET_MILLIS },
            )
            &&& s2.stage == SetupStage::Init(Init::start(broadcast))
            &&& at.position() == lifted(init.position())
            &&& after.stage == SetupStage::Init(init.next(reply))
            &&& init.next(reply).stage matches InitStage::Done(Err(e)) ==> after.position()
                == Step::<Result<Runner, Error>>::Ready(Err(e))
            &&& init.next(reply).stage matches InitStage::Done(Ok(_)) ==> after.position()
                == lifted(SetMac::start(mac).position())
        }),
{
}

} // verus!
