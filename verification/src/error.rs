//! What the driver reports: its errors and the state of the link.

use embedded_hal::spi::ErrorKind;
use vstd::prelude::*;
use vstd::std_specs::convert::FromSpecImpl;

verus! {

/// `embedded_hal::spi::ErrorKind`, the kind of an SPI bus error. Nothing is
/// said of what a value holds: the driver never looks inside and hands the
/// kind on to its caller.
#[verifier::external_type_specification]
#[verifier::external_body]
pub struct ExErrorKind(embedded_hal::spi::ErrorKind);

/// The largest frame, in bytes, that the chip takes for transmission.
pub const MAX_TX_SIZE: u16 = 2000;

/// The family that the chip must identify as.
pub const CHIP_ID_FAMILY: u8 = 0x88;

/// The chip within that family.
pub const CHIP_ID_CHIP: u8 = 0x7;

/// Why an operation on the chip failed.
#[derive(Clone, Copy, Debug, PartialEq, Eq)]
pub enum Error {
    /// The SPI bus reported an error.
    SpiError(ErrorKind),
    /// The device on the bus is not a KSZ8851SNL.
    BadChipId { expected_family: u8, actual_family: u8, expected_chip: u8, actual_chip: u8 },
    /// The chip's memory failed its built-in self test.
    FailedBuiltInSelfTest { rx_bist_failed: bool, tx_bist_failed: bool },
    /// The frame is longer than the chip can send.
    TxPacketTooBig { size: usize, max: u16 },
    /// The chip received a damaged frame and has dropped it.
    RxFrameInvalid,
    /// The chip holds no complete frame.
    RxNoFrameAvailable,
}

impl From<ErrorKind> for Error {
    fn from(value: ErrorKind) -> (e: Error) {
        Error::SpiError(value)
    }
}

impl FromSpecImpl<ErrorKind> for Error {
    open spec fn obeys_from_spec() -> bool {
        true
    }

    open spec fn from_spec(value: ErrorKind) -> Error {
        Error::SpiError(value)
    }
}

/// Whether the cable is connected and the link partner answers.
#[derive(Clone, Copy, Debug, PartialEq, Eq, Structural)]
pub enum LinkState {
    Down,
    Up,
}

} // verus!
