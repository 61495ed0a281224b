//! Reset, self test and identification registers.

use crate::bits::{
    flag, get_flag, get_small_field, high_byte, join, low_byte, set_flag, small_field, split,
    with_flag, word_of,
};
use vstd::prelude::*;

verus! {

/// Memory built-in self test information.
#[derive(Clone, Copy, Debug, PartialEq, Eq, Structural)]
pub struct MBIR {
    /// The register word; bit 15 is the most significant.
    pub bits: u16,
}

impl MBIR {
    /// The register's address on the chip.
    pub const ADDRESS: u8 = 0x24;

    /// The register from its two bytes in bus order, low byte first.
    pub fn from_bytes(data: [u8; 2]) -> (r: Self)
        ensures
            r.bits == word_of(data[0], data[1]),
    {
        MBIR { bits: join(data[0], data[1]) }
    }

    /// The register's two bytes in bus order, low byte first.
    pub fn data(&self) -> (d: [u8; 2])
        ensures
            d[0] == low_byte(self.bits),
            d[1] == high_byte(self.bits),
    {
        let (lo, hi) = split(self.bits);
        [lo, hi]
    }

    /// The self test of the transmit memory has finished.
    #[verifier::allow_in_spec]
    pub fn read_tx_memory_bist_finish(&self) -> bool
        returns
            flag(self.bits, 12),
    {
        get_flag(self.bits, 12)
    }

    /// The self test of the transmit memory failed.
    #[verifier::allow_in_spec]
    pub fn read_tx_memory_bist_fail(&self) -> bool
        returns
            flag(self.bits, 11),
    {
        get_flag(self.bits, 11)
    }

    /// How many transmit memory tests failed.
    #[verifier::allow_in_spec]
    pub fn read_tx_memory_bist_test_fail_count(&self) -> u8
        returns
            small_field(self.bits, 8, 3),
    {
        get_small_field(self.bits, 8, 3)
    }

    /// The self test of the receive memory has finished.
    #[verifier::allow_in_spec]
    pub fn read_rx_memory_bist_finish(&self) -> bool
        returns
            flag(self.bits, 4),
    {
        get_flag(self.bits, 4)
    }

    /// The self test of the receive memory failed.
    #[verifier::allow_in_spec]
    pub fn read_rx_memory_bist_fail(&self) -> bool
        returns
            flag(self.bits, 3),
    {
        get_flag(self.bits, 3)
    }

    /// How many receive memory tests failed.
    #[verifier::allow_in_spec]
    pub fn read_rx_memory_bist_test_fail_count(&self) -> u8
        returns
            small_field(self.bits, 0, 3),
    {
        get_small_field(self.bits, 0, 3)
    }
}

/// Global reset register.
#[derive(Clone, Copy, Debug, PartialEq, Eq, Structural)]
pub struct GRR {
    /// The register word; bit 15 is the most significant.
    pub bits: u16,
}

impl GRR {
    /// The register's address on the chip.
    pub const ADDRESS: u8 = 0x26;

    /// The register with every bit clear.
    #[verifier::allow_in_spec]
    pub fn zeroed() -> Self
        returns
            (GRR { bits: 0 }),
    {
        GRR { bits: 0 }
    }

    /// The register from its two bytes in bus order, low byte first.
    pub fn from_bytes(data: [u8; 2]) -> (r: Self)
        ensures
            r.bits == word_of(data[0], data[1]),
    {
        GRR { bits: join(data[0], data[1]) }
    }

    /// The register's two bytes in bus order, low byte first.
    pub fn data(&self) -> (d: [u8; 2])
        ensures
            d[0] == low_byte(self.bits),
            d[1] == high_byte(self.bits),
    {
        let (lo, hi) = split(self.bits);
        [lo, hi]
    }

    /// Holds the queue management unit in reset.
    #[verifier::allow_in_spec]
    pub fn read_qmu_module_soft_reset(&self) -> bool
        returns
            flag(self.bits, 1),
    {
        get_flag(self.bits, 1)
    }

    /// The register with `qmu_module_soft_reset` replaced.
    #[verifier::allow_in_spec]
    pub fn with_qmu_module_soft_reset(self, value: bool) -> Self
        returns
            (GRR { bits: with_flag(self.bits, 1, value) }),
    {
        GRR { bits: set_flag(self.bits, 1, value) }
    }

    /// Replaces `qmu_module_soft_reset` in place.
    pub fn write_qmu_module_soft_reset(&mut self, value: bool)
        ensures
            *final(self) == old(self).with_qmu_module_soft_reset(value),
    {
        self.bits = set_flag(self.bits, 1, value);
    }

    /// Holds the whole chip in reset.
    #[verifier::allow_in_spec]
    pub fn read_global_soft_reset(&self) -> bool
        returns
            flag(self.bits, 0),
    {
        get_flag(self.bits, 0)
    }

    /// The register with `global_soft_reset` replaced.
    #[verifier::allow_in_spec]
    pub fn with_global_soft_reset(self, value: bool) -> Self
        returns
            (GRR { bits: with_flag(self.bits, 0, value) }),
    {
        GRR { bits: set_flag(self.bits, 0, value) }
    }

    /// Replaces `global_soft_reset` in place.
    pub fn write_global_soft_reset(&mut self, value: bool)
        ensures
            *final(self) == old(self).with_global_soft_reset(value),
    {
        self.bits = set_flag(self.bits, 0, value);
    }
}

/// Chip identification and enable register.
#[derive(Clone, Copy, Debug, PartialEq, Eq, Structural)]
pub struct CIDER {
    /// The register word; bit 15 is the most significant.
    pub bits: u16,
}

impl CIDER {
    /// The register's address on the chip.
    pub const ADDRESS: u8 = 0xC0;

    /// The register from its two bytes in bus order, low byte first.
    pub fn from_bytes(data: [u8; 2]) -> (r: Self)
        ensures
            r.bits == word_of(data[0], data[1]),
    {
        CIDER { bits: join(data[0], data[1]) }
    }

    /// The register's two bytes in bus order, low byte first.
    pub fn data(&self) -> (d: [u8; 2])
        ensures
            d[0] == low_byte(self.bits),
            d[1] == high_byte(self.bits),
    {
        let (lo, hi) = split(self.bits);
        [lo, hi]
    }

    /// The chip family.
    #[verifier::allow_in_spec]
    pub fn read_family_id(&self) -> u8
        returns
            small_field(self.bits, 8, 8),
    {
        get_small_field(self.bits, 8, 8)
    }

    /// The chip within its family.
    #[verifier::allow_in_spec]
    pub fn read_chip_id(&self) -> u8
        returns
            small_field(self.bits, 4, 4),
    {
        get_small_field(self.bits, 4, 4)
    }

    /// The silicon revision.
    #[verifier::allow_in_spec]
    pub fn read_revision_id(&self) -> u8
        returns
            small_field(self.bits, 1, 3),
    {
        get_small_field(self.bits, 1, 3)
    }
}

} // verus!
