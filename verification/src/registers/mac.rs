//! The station address registers.

use crate::bits::{
    high_byte, join, low_byte, split, word_of,
};
use vstd::prelude::*;

verus! {

/// MAC address register low: the last two bytes of the station address.
#[derive(Clone, Copy, Debug, PartialEq, Eq, Structural)]
pub struct MARL {
    /// The register word; bit 15 is the most significant.
    pub bits: u16,
}

impl MARL {
    /// The register's address on the chip.
    pub const ADDRESS: u8 = 0x10;

    /// The register with every bit clear.
    #[verifier::allow_in_spec]
    pub fn zeroed() -> Self
        returns
            (MARL { bits: 0 }),
    {
        MARL { bits: 0 }
    }

    /// The register from its two bytes in bus order, low byte first.
    pub fn from_bytes(data: [u8; 2]) -> (r: Self)
        ensures
            r.bits == word_of(data[0], data[1]),
    {
        MARL { bits: join(data[0], data[1]) }
    }

    /// The register's two bytes in bus order, low byte first.
    pub fn data(&self) -> (d: [u8; 2])
        ensures
            d[0] == low_byte(self.bits),
            d[1] == high_byte(self.bits),
    {
        let (lo, hi) = split(self.bits);
        [lo, hi]
    }

    /// The fifth and sixth byte of the MAC address.
    #[verifier::allow_in_spec]
    pub fn read_marl(&self) -> [u8; 2]
        returns
            [high_byte(self.bits), low_byte(self.bits)],
    {
        let (lo, hi) = split(self.bits);
        [hi, lo]
    }

    /// The register with `marl` replaced.
    #[verifier::allow_in_spec]
    pub fn with_marl(self, value: [u8; 2]) -> Self
        returns
            (MARL { bits: word_of(value[1], value[0]) }),
    {
        MARL { bits: join(value[1], value[0]) }
    }

    /// Replaces `marl` in place.
    pub fn write_marl(&mut self, value: [u8; 2])
        ensures
            *final(self) == old(self).with_marl(value),
    {
        self.bits = join(value[1], value[0]);
    }
}

/// MAC address register middle: the middle two bytes of the station address.
#[derive(Clone, Copy, Debug, PartialEq, Eq, Structural)]
pub struct MARM {
    /// The register word; bit 15 is the most significant.
    pub bits: u16,
}

impl MARM {
    /// The register's address on the chip.
    pub const ADDRESS: u8 = 0x12;

    /// The register with every bit clear.
    #[verifier::allow_in_spec]
    pub fn zeroed() -> Self
        returns
            (MARM { bits: 0 }),
    {
        MARM { bits: 0 }
    }

    /// The register from its two bytes in bus order, low byte first.
    pub fn from_bytes(data: [u8; 2]) -> (r: Self)
        ensures
            r.bits == word_of(data[0], data[1]),
    {
        MARM { bits: join(data[0], data[1]) }
    }

    /// The register's two bytes in bus order, low byte first.
    pub fn data(&self) -> (d: [u8; 2])
        ensures
            d[0] == low_byte(self.bits),
            d[1] == high_byte(self.bits),
    {
        let (lo, hi) = split(self.bits);
        [lo, hi]
    }

    /// The third and fourth byte of the MAC address.
    #[verifier::allow_in_spec]
    pub fn read_marm(&self) -> [u8; 2]
        returns
            [high_byte(self.bits), low_byte(self.bits)],
    {
        let (lo, hi) = split(self.bits);
        [hi, lo]
    }

    /// The register with `marm` replaced.
    #[verifier::allow_in_spec]
    pub fn with_marm(self, value: [u8; 2]) -> Self
        returns
            (MARM { bits: word_of(value[1], value[0]) }),
    {
        MARM { bits: join(value[1], value[0]) }
    }

    /// Replaces `marm` in place.
    pub fn write_marm(&mut self, value: [u8; 2])
        ensures
            *final(self) == old(self).with_marm(value),
    {
        self.bits = join(value[1], value[0]);
    }
}

/// MAC address register high: the first two bytes of the station address.
#[derive(Clone, Copy, Debug, PartialEq, Eq, Structural)]
pub struct MARH {
    /// The register word; bit 15 is the most significant.
    pub bits: u16,
}

impl MARH {
    /// The register's address on the chip.
    pub const ADDRESS: u8 = 0x14;

    /// The register with every bit clear.
    #[verifier::allow_in_spec]
    pub fn zeroed() -> Self
        returns
            (MARH { bits: 0 }),
    {
        MARH { bits: 0 }
    }

    /// The register from its two bytes in bus order, low byte first.
    pub fn from_bytes(data: [u8; 2]) -> (r: Self)
        ensures
            r.bits == word_of(data[0], data[1]),
    {
        MARH { bits: join(data[0], data[1]) }
    }

    /// The register's two bytes in bus order, low byte first.
    pub fn data(&self) -> (d: [u8; 2])
        ensures
            d[0] == low_byte(self.bits),
            d[1] == high_byte(self.bits),
    {
        let (lo, hi) = split(self.bits);
        [lo, hi]
    }

    /// The first and second byte of the MAC address.
    #[verifier::allow_in_spec]
    pub fn read_marh(&self) -> [u8; 2]
        returns
            [high_byte(self.bits), low_byte(self.bits)],
    {
        let (lo, hi) = split(self.bits);
        [hi, lo]
    }

    /// The register with `marh` replaced.
    #[verifier::allow_in_spec]
    pub fn with_marh(self, value: [u8; 2]) -> Self
        returns
            (MARH { bits: word_of(value[1], value[0]) }),
    {
        MARH { bits: join(value[1], value[0]) }
    }

    /// Replaces `marh` in place.
    pub fn write_marh(&mut self, value: [u8; 2])
        ensures
            *final(self) == old(self).with_marh(value),
    {
        self.bits = join(value[1], value[0]);
    }
}

} // verus!
