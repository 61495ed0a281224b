//! The register map: one type for each register of the chip that the driver
//! touches, with its address and its bit fields.
//!
//! A register value is the 16-bit word itself. Reading a field looks at its
//! bits; replacing a field leaves every other bit as it was, so a value read
//! from the chip can be changed and written back.

pub mod mac;
pub mod system;
pub mod transmit;
pub mod receive;
pub mod interrupt;
pub mod phy;

pub use mac::{MARL, MARM, MARH};
pub use system::{MBIR, GRR, CIDER};
pub use transmit::{TXCR, TXMIR, TXQCR, TXFDPR, TXNTFSR};
pub use receive::{
    SPIRxDataBurstLength, RXCR1, RXCR2, RXFHSR, RXFHBCR, RXQCR, RXFDPR, RXDTTR, RXDBCTR, RXFCTR,
};
pub use interrupt::{IER, ISR};
pub use phy::{LinkSpeed, MDIXStatus, P1CR, P1SR};

use vstd::prelude::*;

verus! {

/// Whether the register at `address` is one that the chip lets the driver
/// read but not write.
pub open spec fn read_only(address: u8) -> bool {
    address == MBIR::ADDRESS
        || address == CIDER::ADDRESS
        || address == TXMIR::ADDRESS
        || address == RXFHSR::ADDRESS
        || address == RXFHBCR::ADDRESS
        || address == P1SR::ADDRESS
}

} // verus!
