//! Bringing the chip up: reset, identification, self test, configuration.

use crate::bus::{Operation, Reply, Step};
use crate::config::{
    interrupts, port, receive_burst, receive_control, receive_enabled, receive_pointer,
    receive_queue, receive_timer, reset_asserted, transmit_control, transmit_enabled,
    transmit_pointer, transmit_queue, RESET_MILLIS,
};
use crate::error::{Error, CHIP_ID_CHIP, CHIP_ID_FAMILY};
use crate::registers::{
    CIDER, GRR, IER, MBIR, P1CR, RXCR1, RXCR2, RXDTTR, RXFDPR, RXQCR, TXCR, TXFDPR, TXQCR,
};
use vstd::prelude::*;

verus! {

/// The settings that bring-up programs, in the order in which it does.
#[derive(Clone, Copy, Debug, PartialEq, Eq, Structural)]
pub enum Setting {
    TransmitPointer,
    TransmitControl,
    ReceiveTimer,
    ReceivePointer,
    ReceiveQueue,
    ReceiveControl,
    ReceiveBurst,
    Interrupts,
    Port,
    TransmitQueue,
    TransmitEnable,
    ReceiveEnable,
}

impl Setting {
    /// The first setting.
    pub open spec fn first() -> Setting {
        Setting::TransmitPointer
    }

    /// The address of the register that holds the setting.
    #[verifier::allow_in_spec]
    pub fn address(self) -> u8
        returns
            (match self {
                Setting::TransmitPointer => TXFDPR::ADDRESS,
                Setting::TransmitControl => TXCR::ADDRESS,
                Setting::ReceiveTimer => RXDTTR::ADDRESS,
                Setting::ReceivePointer => RXFDPR::ADDRESS,
                Setting::ReceiveQueue => RXQCR::ADDRESS,
                Setting::ReceiveControl => RXCR1::ADDRESS,
                Setting::ReceiveBurst => RXCR2::ADDRESS,
                Setting::Interrupts => IER::ADDRESS,
                Setting::Port => P1CR::ADDRESS,
                Setting::TransmitQueue => TXQCR::ADDRESS,
                Setting::TransmitEnable => TXCR::ADDRESS,
                Setting::ReceiveEnable => RXCR1::ADDRESS,
            }),
    {
        match self {
            Setting::TransmitPointer => TXFDPR::ADDRESS,
            Setting::TransmitControl => TXCR::ADDRESS,
            Setting::ReceiveTimer => RXDTTR::ADDRESS,
            Setting::ReceivePointer => RXFDPR::ADDRESS,
            Setting::ReceiveQueue => RXQCR::ADDRESS,
            Setting::ReceiveControl => RXCR1::ADDRESS,
            Setting::ReceiveBurst => RXCR2::ADDRESS,
            Setting::Interrupts => IER::ADDRESS,
            Setting::Port => P1CR::ADDRESS,
            Setting::TransmitQueue => TXQCR::ADDRESS,
            Setting::TransmitEnable => TXCR::ADDRESS,
            Setting::ReceiveEnable => RXCR1::ADDRESS,
        }
    }

    /// Whether the setting keeps what the chip holds in the fields that it
    /// does not name, and so reads the register before it writes it.
    #[verifier::allow_in_spec]
    pub fn reads(self) -> bool
        returns
            !(self is ReceiveTimer),
    {
        !matches!(self, Setting::ReceiveTimer)
    }

    /// The word to write for the setting, where the chip holds `word`.
    /// Broadcast frames are received if `broadcast` says so.
    #[verifier::allow_in_spec]
    pub fn apply(self, word: u16, broadcast: bool) -> u16
        returns
            (match self {
                Setting::TransmitPointer => transmit_pointer(TXFDPR { bits: word }).bits,
                Setting::TransmitControl => transmit_control(TXCR { bits: word }).bits,
                Setting::ReceiveTimer => receive_timer().bits,
                Setting::ReceivePointer => receive_pointer(RXFDPR { bits: word }).bits,
                Setting::ReceiveQueue => receive_queue(RXQCR { bits: word }).bits,
                Setting::ReceiveControl => receive_control(RXCR1 { bits: word }, broadcast).bits,
                Setting::ReceiveBurst => receive_burst(RXCR2 { bits: word }).bits,
                Setting::Interrupts => interrupts(IER { bits: word }).bits,
                Setting::Port => port(P1CR { bits: word }).bits,
                Setting::TransmitQueue => transmit_queue(TXQCR { bits: word }).bits,
                Setting::TransmitEnable => transmit_enabled(TXCR { bits: word }).bits,
                Setting::ReceiveEnable => receive_enabled(RXCR1 { bits: word }).bits,
            }),
    {
        match self {
            Setting::TransmitPointer => transmit_pointer(TXFDPR { bits: word }).bits,
            Setting::TransmitControl => transmit_control(TXCR { bits: word }).bits,
            Setting::ReceiveTimer => receive_timer().bits,
            Setting::ReceivePointer => receive_pointer(RXFDPR { bits: word }).bits,
            Setting::ReceiveQueue => receive_queue(RXQCR { bits: word }).bits,
            Setting::ReceiveControl => receive_control(RXCR1 { bits: word }, broadcast).bits,
            Setting::ReceiveBurst => receive_burst(RXCR2 { bits: word }).bits,
            Setting::Interrupts => interrupts(IER { bits: word }).bits,
            Setting::Port => port(P1CR { bits: word }).bits,
            Setting::TransmitQueue => transmit_queue(TXQCR { bits: word }).bits,
            Setting::TransmitEnable => transmit_enabled(TXCR { bits: word }).bits,
            Setting::ReceiveEnable => receive_enabled(RXCR1 { bits: word }).bits,
        }
    }

    /// The setting that comes after this one, if any.
    #[verifier::allow_in_spec]
    pub fn following(self) -> Option<Setting>
        returns
            (match self {
                Setting::TransmitPointer => Some(Setting::TransmitControl),
                Setting::TransmitControl => Some(Setting::ReceiveTimer),
                Setting::ReceiveTimer => Some(Setting::ReceivePointer),
                Setting::ReceivePointer => Some(Setting::ReceiveQueue),
                Setting::ReceiveQueue => Some(Setting::ReceiveControl),
                Setting::ReceiveControl => Some(Setting::ReceiveBurst),
                Setting::ReceiveBurst => Some(Setting::Interrupts),
                Setting::Interrupts => Some(Setting::Port),
                Setting::Port => Some(Setting::TransmitQueue),
                Setting::TransmitQueue => Some(Setting::TransmitEnable),
                Setting::TransmitEnable => Some(Setting::ReceiveEnable),
                Setting::ReceiveEnable => None,
            }),
    {
        match self {
            Setting::TransmitPointer => Some(Setting::TransmitControl),
            Setting::TransmitControl => Some(Setting::ReceiveTimer),
            Setting::ReceiveTimer => Some(Setting::ReceivePointer),
            Setting::ReceivePointer => Some(Setting::ReceiveQueue),
            Setting::ReceiveQueue => Some(Setting::ReceiveControl),
            Setting::ReceiveControl => Some(Setting::ReceiveBurst),
            Setting::ReceiveBurst => Some(Setting::Interrupts),
            Setting::Interrupts => Some(Setting::Port),
            Setting::Port => Some(Setting::TransmitQueue),
            Setting::TransmitQueue => Some(Setting::TransmitEnable),
            Setting::TransmitEnable => Some(Setting::ReceiveEnable),
            Setting::ReceiveEnable => None,
        }
    }
}

/// Where bring-up stands.
#[derive(Clone, Copy, Debug, PartialEq, Eq)]
pub enum InitStage {
    /// Put the chip into soft reset.
    AssertReset,
    /// Hold it there.
    HoldReset,
    /// Take it out of reset.
    ClearReset,
    /// Leave it alone until it is ready.
    SettleReset,
    /// Read the chip's identification.
    Identify,
    /// Read the result of the memory self test.
    SelfTest,
    /// Read the register of a setting.
    Fetch(Setting),
    /// Write the word of a setting.
    Store(Setting, u16),
    /// Bring-up has ended.
    Done(Result<(), Error>),
}

/// Bring-up of the chip, step by step.
#[derive(Clone, Copy, Debug, PartialEq, Eq)]
pub struct Init {
    /// Whether the chip is to receive broadcast frames.
    pub broadcast: bool,
    pub stage: InitStage,
}

/// What the chip's identification says of the device on the bus.
pub open spec fn identified(cider: CIDER) -> Result<(), Error> {
    if cider.read_chip_id() != CHIP_ID_CHIP || cider.read_family_id() != CHIP_ID_FAMILY {
        Err(
            Error::BadChipId {
                expected_family: CHIP_ID_FAMILY,
                actual_family: cider.read_family_id(),
                expected_chip: CHIP_ID_CHIP,
                actual_chip: cider.read_chip_id(),
            },
        )
    } else {
        Ok(())
    }
}

/// What the self test register says of the chip's memory.
pub open spec fn self_tested(mbir: MBIR) -> Result<(), Error> {
    if mbir.read_rx_memory_bist_fail() || mbir.read_tx_memory_bist_fail() {
        Err(
            Error::FailedBuiltInSelfTest {
                rx_bist_failed: mbir.read_rx_memory_bist_fail(),
                tx_bist_failed: mbir.read_tx_memory_bist_fail(),
            },
        )
    } else {
        Ok(())
    }
}

/// Computes [`identified`].
pub fn check_identification(cider: CIDER) -> (r: Result<(), Error>)
    ensures
        r == identified(cider),
{
    if cider.read_chip_id() != CHIP_ID_CHIP || cider.read_family_id() != CHIP_ID_FAMILY {
        Err(
            Error::BadChipId {
                expected_family: CHIP_ID_FAMILY,
                actual_family: cider.read_family_id(),
                expected_chip: CHIP_ID_CHIP,
                actual_chip: cider.read_chip_id(),
            },
        )
    } else {
        Ok(())
    }
}

/// Computes [`self_tested`].
pub fn check_self_test(mbir: MBIR) -> (r: Result<(), Error>)
    ensures
        r == self_tested(mbir),
{
    if mbir.read_rx_memory_bist_fail() || mbir.read_tx_memory_bist_fail() {
        Err(
            Error::FailedBuiltInSelfTest {
                rx_bist_failed: mbir.read_rx_memory_bist_fail(),
                tx_bist_failed: mbir.read_tx_memory_bist_fail(),
            },
        )
    } else {
        Ok(())
    }
}

impl InitStage {
    /// The stage that programs `setting`: it begins with a read where the
    /// setting keeps part of the register, and with the write where not.
    pub open spec fn entering(setting: Setting, broadcast: bool) -> InitStage {
        if setting.reads() {
            InitStage::Fetch(setting)
        } else {
            InitStage::Store(setting, setting.apply(0, broadcast))
        }
    }

    /// Computes [`InitStage::entering`].
    pub fn enter(setting: Setting, broadcast: bool) -> (s: InitStage)
        ensures
            s == InitStage::entering(setting, broadcast),
    {
        if setting.reads() {
            InitStage::Fetch(setting)
        } else {
            InitStage::Store(setting, setting.apply(0, broadcast))
        }
    }
}

impl Init {
    /// Bring-up before its first step.
    pub open spec fn start(broadcast: bool) -> Init {
        Init { broadcast, stage: InitStage::AssertReset }
    }

    /// What bring-up waits for, or how it ended.
    pub open spec fn position(self) -> Step<Result<(), Error>> {
        match self.stage {
            InitStage::AssertReset => Step::Pending(
                Operation::WriteRegister { address: GRR::ADDRESS, word: reset_asserted().bits },
            ),
            InitStage::HoldReset => Step::Pending(Operation::Delay { millis: RESET_MILLIS }),
            InitStage::ClearReset => Step::Pending(
                Operation::WriteRegister { address: GRR::ADDRESS, word: GRR::zeroed().bits },
            ),
            InitStage::SettleReset => Step::Pending(Operation::Delay { millis: RESET_MILLIS }),
            InitStage::Identify => Step::Pending(
                Operation::ReadRegister { address: CIDER::ADDRESS },
            ),
            InitStage::SelfTest => Step::Pending(
                Operation::ReadRegister { address: MBIR::ADDRESS },
            ),
            InitStage::Fetch(setting) => Step::Pending(
                Operation::ReadRegister { address: setting.address() },
            ),
            InitStage::Store(setting, word) => Step::Pending(
                Operation::WriteRegister { address: setting.address(), word },
            ),
            InitStage::Done(result) => Step::Ready(result),
        }
    }

    /// Whether bring-up waits for an operation that `reply` answers.
    pub open spec fn admits(self, reply: Reply) -> bool {
        self.position() matches Step::Pending(op) && op.answered_by(reply)
    }

    /// The stage after `reply`. A bus error ends bring-up, and so does a
    /// chip that is not the expected one or whose memory is broken. Each
    /// setting is written after it was read, and followed by the next.
    pub open spec fn next(self, reply: Reply) -> Init {
        let stage = match reply {
            Reply::Failed(kind) => InitStage::Done(Err(Error::SpiError(kind))),
            Reply::Word(word) => match self.stage {
                InitStage::Identify => match identified(CIDER { bits: word }) {
                    Ok(()) => InitStage::SelfTest,
                    Err(e) => InitStage::Done(Err(e)),
                },
                InitStage::SelfTest => match self_tested(MBIR { bits: word }) {
                    Ok(()) => InitStage::entering(Setting::first(), self.broadcast),
                    Err(e) => InitStage::Done(Err(e)),
                },
                InitStage::Fetch(setting) => InitStage::Store(
                    setting,
                    setting.apply(word, self.broadcast),
                ),
                _ => self.stage,
            },
            _ => match self.stage {
                InitStage::AssertReset => InitStage::HoldReset,
                InitStage::HoldReset => InitStage::ClearReset,
                InitStage::ClearReset => InitStage::SettleReset,
                InitStage::SettleReset => InitStage::Identify,
                InitStage::Store(setting, _) => match setting.following() {
                    Some(following) => InitStage::entering(following, self.broadcast),
                    None => InitStage::Done(Ok(())),
                },
                _ => self.stage,
            },
        };
        Init { broadcast: self.broadcast, stage }
    }

    /// What bring-up waits for, or how it ended.
    pub fn poll(&self) -> (s: Step<Result<(), Error>>)
        ensures
            s == self.position(),
    {
        match self.stage {
            InitStage::AssertReset => Step::Pending(
                Operation::WriteRegister { address: GRR::ADDRESS, word: reset_asserted().bits },
            ),
            InitStage::HoldReset => Step::Pending(Operation::Delay { millis: RESET_MILLIS }),
            InitStage::ClearReset => Step::Pending(
                Operation::WriteRegister { address: GRR::ADDRESS, word: GRR::zeroed().bits },
            ),
            InitStage::SettleReset => Step::Pending(Operation::Delay { millis: RESET_MILLIS }),
            InitStage::Identify => Step::Pending(
                Operation::ReadRegister { address: CIDER::ADDRESS },
            ),
            InitStage::SelfTest => Step::Pending(
                Operation::ReadRegister { address: MBIR::ADDRESS },
            ),
            InitStage::Fetch(setting) => Step::Pending(
                Operation::ReadRegister { address: setting.address() },
            ),
            InitStage::Store(setting, word) => Step::Pending(
                Operation::WriteRegister { address: setting.address(), word },
            ),
            InitStage::Done(result) => Step::Ready(result),
        }
    }

    /// Whether `reply` answers what bring-up waits for.
    pub fn accepts(&self, reply: &Reply) -> (b: bool)
        ensures
            b == self.admits(*reply),
    {
        match self.poll() {
            Step::Pending(op) => op.is_answered_by(reply),
            Step::Ready(_) => false,
        }
    }

    /// Takes the reply to the pending operation and moves to the next stage.
    pub fn advance(&mut self, reply: Reply)
        requires
            old(self).admits(reply),
        ensures
            *final(self) == old(self).next(reply),
    {
        self.stage = match reply {
            Reply::Failed(kind) => InitStage::Done(Err(Error::SpiError(kind))),
            Reply::Word(word) => match self.stage {
                InitStage::Identify => match check_identification(CIDER { bits: word }) {
                    Ok(()) => InitStage::SelfTest,
                    Err(e) => InitStage::Done(Err(e)),
                },
                InitStage::SelfTest => match check_self_test(MBIR { bits: word }) {
                    Ok(()) => InitStage::enter(Setting::TransmitPointer, self.broadcast),
                    Err(e) => InitStage::Done(Err(e)),
                },
                InitStage::Fetch(setting) => InitStage::Store(
                    setting,
                    setting.apply(word, self.broadcast),
                ),
                other => other,
            },
            _ => match self.stage {
                InitStage::AssertReset => InitStage::HoldReset,
                InitStage::HoldReset => InitStage::ClearReset,
                InitStage::ClearReset => InitStage::SettleReset,
                InitStage::SettleReset => InitStage::Identify,
                InitStage::Store(setting, _) => match setting.following() {
                    Some(following) => InitStage::enter(following, self.broadcast),
                    None => InitStage::Done(Ok(())),
                },
                other => other,
            },
        };
    }
}

/// The settings in the order in which bring-up programs them.
pub open spec fn settings() -> Seq<Setting> {
    seq![
        Setting::TransmitPointer,
        Setting::TransmitControl,
        Setting::ReceiveTimer,
        Setting::ReceivePointer,
        Setting::ReceiveQueue,
        Setting::ReceiveControl,
        Setting::ReceiveBurst,
        Setting::Interrupts,
        Setting::Port,
        Setting::TransmitQueue,
        Setting::TransmitEnable,
        Setting::ReceiveEnable,
    ]
}

/// Bring-up begins with a pulse of the soft reset, ten milliseconds long and
/// followed by ten more, and then reads the chip's identification and the
/// result of its self test. A chip of another kind ends bring-up with
/// `BadChipId`, broken memory with `FailedBuiltInSelfTest`; with neither,
/// the first setting is next.
pub proof fn lemma_init_begins(broadcast: bool, cider: CIDER, mbir: MBIR)
    ensures
        ({
            let s0 = Init::start(broadcast);
            let s1 = s0.next(Reply::Done);
            let s2 = s1.next(Reply::Done);
            let s3 = s2.next(Reply::Done);
            let s4 = s3.next(Reply::Done);
            let s5 = s4.next(Reply::Word(cider.bits));
            let s6 = s5.next(Reply::Word(mbir.bits));
            &&& s0.position() == Step::<Result<(), Error>>::Pending(
                Operation::WriteRegister {
                    address: GRR::ADDRESS,
                    word: GRR::zeroed().with_global_soft_reset(true).bits,
                },
            )
            &&& s1.position() == Step::<Result<(), Error>>::Pending(
                Operation::Delay { millis: RESET_MILLIS },
            )
            &&& s2.position() == Step::<Result<(), Error>>::Pending(
                Operation::WriteRegister { address: GRR::ADDRESS, word: 0 },
            )
            &&& s3.position() == Step::<Result<(), Error>>::Pending(
                Operation::Delay { millis: RESET_MILLIS },
            )
            &&& s4.position() == Step::<Result<(), Error>>::Pending(
                Operation::ReadRegister { address: CIDER::ADDRESS },
            )
            &&& match identified(cider) {
                Err(e) => s5.position() == Step::<Result<(), Error>>::Ready(Err(e)),
                Ok(_) => {
                    &&& s5.position() == Step::<Result<(), Error>>::Pending(
                        Operation::ReadRegister { address: MBIR::ADDRESS },
                    )
                    &&& match self_tested(mbir) {
                        Err(e) => s6.position() == Step::<Result<(), Error>>::Ready(Err(e)),
                        Ok(_) => s6.stage == InitStage::entering(settings()[0], broadcast),
                    }
                },
            }
        }),
{
}

/// Each setting is programmed in its turn. Where it keeps part of its
/// register, the register is read, and what is written is what was read
/// with the setting applied; where it does not, the setting is written as
/// it is. After the write comes the next setting, and after the last one
/// bring-up has ended well.
pub proof fn lemma_init_programs(broadcast: bool, i: int, word: u16)
    requires
        0 <= i < settings().len(),
    ensures
        ({
            let setting = settings()[i];
            let at = Init { broadcast, stage: InitStage::entering(setting, broadcast) };
            let write = if setting.reads() {
                at.next(Reply::Word(word))
            } else {
                at
            };
            &&& setting.reads() ==> at.position() == Step::<Result<(), Error>>::Pending(
                Operation::ReadRegister { address: setting.address() },
            )
            &&& write.position() == Step::<Result<(), Error>>::Pending(
                Operation::WriteRegister {
                    address: setting.address(),
                    word: setting.apply(if setting.reads() {
                        word
                    } else {
                        0
                    }, broadcast),
                },
            )
            &&& write.next(Reply::Done).stage == if i + 1 < settings().len() {
                InitStage::entering(settings()[i + 1], broadcast)
            } else {
                InitStage::Done(Ok(()))
            }
        }),
{
}

} // verus!
