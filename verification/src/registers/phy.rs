//! Control and status registers of the PHY port.

use crate::bits::{
    flag, get_flag, get_small_field, high_byte, join, low_byte, set_field, set_flag,
    small_field, split, with_field, with_flag, word_of,
};
use vstd::prelude::*;

verus! {

/// The speed of the link. A value that names no other variant reads as the last
/// one.
#[allow(non_camel_case_types)]
#[derive(Clone, Copy, Debug, PartialEq, Eq, Structural)]
pub enum LinkSpeed {
    /// 10 Mbit/s.
    _10,
    /// 100 Mbit/s.
    _100,
}

impl LinkSpeed {
    /// The number that stands for the variant in the register.
    pub open spec fn code(self) -> u8 {
        match self {
            LinkSpeed::_10 => 0,
            LinkSpeed::_100 => 1,
        }
    }

    /// The variant that a number read from the register stands for.
    pub open spec fn decode(bits: u8) -> Self {
        if bits == 0 {
            LinkSpeed::_10
        } else {
            LinkSpeed::_100
        }
    }

    /// Computes [`Self::code`].
    pub fn bits(self) -> (b: u8)
        ensures
            b == self.code(),
    {
        match self {
            LinkSpeed::_10 => 0,
            LinkSpeed::_100 => 1,
        }
    }

    /// Computes [`Self::decode`].
    pub fn from_bits(bits: u8) -> (v: Self)
        ensures
            v == Self::decode(bits),
    {
        if bits == 0 {
            LinkSpeed::_10
        } else {
            LinkSpeed::_100
        }
    }
}

/// Which wiring the port uses. A value that names no other variant reads as the
/// last one.
#[allow(non_camel_case_types)]
#[derive(Clone, Copy, Debug, PartialEq, Eq, Structural)]
pub enum MDIXStatus {
    /// Crossed: MDI-X.
    MDIX,
    /// Straight: MDI.
    MDI,
}

impl MDIXStatus {
    /// The number that stands for the variant in the register.
    pub open spec fn code(self) -> u8 {
        match self {
            MDIXStatus::MDIX => 0,
            MDIXStatus::MDI => 1,
        }
    }

    /// The variant that a number read from the register stands for.
    pub open spec fn decode(bits: u8) -> Self {
        if bits == 0 {
            MDIXStatus::MDIX
        } else {
            MDIXStatus::MDI
        }
    }

    /// Computes [`Self::code`].
    pub fn bits(self) -> (b: u8)
        ensures
            b == self.code(),
    {
        match self {
            MDIXStatus::MDIX => 0,
            MDIXStatus::MDI => 1,
        }
    }

    /// Computes [`Self::decode`].
    pub fn from_bits(bits: u8) -> (v: Self)
        ensures
            v == Self::decode(bits),
    {
        if bits == 0 {
            MDIXStatus::MDIX
        } else {
            MDIXStatus::MDI
        }
    }
}

/// Port 1 control register.
#[derive(Clone, Copy, Debug, PartialEq, Eq, Structural)]
pub struct P1CR {
    /// The register word; bit 15 is the most significant.
    pub bits: u16,
}

impl P1CR {
    /// The register's address on the chip.
    pub const ADDRESS: u8 = 0xF6;

    /// The register with every bit clear.
    #[verifier::allow_in_spec]
    pub fn zeroed() -> Self
        returns
            (P1CR { bits: 0 }),
    {
        P1CR { bits: 0 }
    }

    /// The register from its two bytes in bus order, low byte first.
    pub fn from_bytes(data: [u8; 2]) -> (r: Self)
        ensures
            r.bits == word_of(data[0], data[1]),
    {
        P1CR { bits: join(data[0], data[1]) }
    }

    /// The register's two bytes in bus order, low byte first.
    pub fn data(&self) -> (d: [u8; 2])
        ensures
            d[0] == low_byte(self.bits),
            d[1] == high_byte(self.bits),
    {
        let (lo, hi) = split(self.bits);
        [lo, hi]
    }

    /// Turn the port LEDs off.
    #[verifier::allow_in_spec]
    pub fn read_led_off(&self) -> bool
        returns
            flag(self.bits, 15),
    {
        get_flag(self.bits, 15)
    }

    /// The register with `led_off` replaced.
    #[verifier::allow_in_spec]
    pub fn with_led_off(self, value: bool) -> Self
        returns
            (P1CR { bits: with_flag(self.bits, 15, value) }),
    {
        P1CR { bits: set_flag(self.bits, 15, value) }
    }

    /// Replaces `led_off` in place.
    pub fn write_led_off(&mut self, value: bool)
        ensures
            *final(self) == old(self).with_led_off(value),
    {
        self.bits = set_flag(self.bits, 15, value);
    }

    /// Disable the transmitter of the port.
    #[verifier::allow_in_spec]
    pub fn read_txids(&self) -> bool
        returns
            flag(self.bits, 14),
    {
        get_flag(self.bits, 14)
    }

    /// The register with `txids` replaced.
    #[verifier::allow_in_spec]
    pub fn with_txids(self, value: bool) -> Self
        returns
            (P1CR { bits: with_flag(self.bits, 14, value) }),
    {
        P1CR { bits: set_flag(self.bits, 14, value) }
    }

    /// Replaces `txids` in place.
    pub fn write_txids(&mut self, value: bool)
        ensures
            *final(self) == old(self).with_txids(value),
    {
        self.bits = set_flag(self.bits, 14, value);
    }

    /// Restart auto-negotiation.
    #[verifier::allow_in_spec]
    pub fn read_restart_an(&self) -> bool
        returns
            flag(self.bits, 13),
    {
        get_flag(self.bits, 13)
    }

    /// The register with `restart_an` replaced.
    #[verifier::allow_in_spec]
    pub fn with_restart_an(self, value: bool) -> Self
        returns
            (P1CR { bits: with_flag(self.bits, 13, value) }),
    {
        P1CR { bits: set_flag(self.bits, 13, value) }
    }

    /// Replaces `restart_an` in place.
    pub fn write_restart_an(&mut self, value: bool)
        ensures
            *final(self) == old(self).with_restart_an(value),
    {
        self.bits = set_flag(self.bits, 13, value);
    }

    /// Disable the automatic choice of MDI or MDI-X.
    #[verifier::allow_in_spec]
    pub fn read_disable_auto_mdix(&self) -> bool
        returns
            flag(self.bits, 10),
    {
        get_flag(self.bits, 10)
    }

    /// The register with `disable_auto_mdix` replaced.
    #[verifier::allow_in_spec]
    pub fn with_disable_auto_mdix(self, value: bool) -> Self
        returns
            (P1CR { bits: with_flag(self.bits, 10, value) }),
    {
        P1CR { bits: set_flag(self.bits, 10, value) }
    }

    /// Replaces `disable_auto_mdix` in place.
    pub fn write_disable_auto_mdix(&mut self, value: bool)
        ensures
            *final(self) == old(self).with_disable_auto_mdix(value),
    {
        self.bits = set_flag(self.bits, 10, value);
    }

    /// Use MDI-X when the automatic choice is off.
    #[verifier::allow_in_spec]
    pub fn read_force_mdix(&self) -> bool
        returns
            flag(self.bits, 9),
    {
        get_flag(self.bits, 9)
    }

    /// The register with `force_mdix` replaced.
    #[verifier::allow_in_spec]
    pub fn with_force_mdix(self, value: bool) -> Self
        returns
            (P1CR { bits: with_flag(self.bits, 9, value) }),
    {
        P1CR { bits: set_flag(self.bits, 9, value) }
    }

    /// Replaces `force_mdix` in place.
    pub fn write_force_mdix(&mut self, value: bool)
        ensures
            *final(self) == old(self).with_force_mdix(value),
    {
        self.bits = set_flag(self.bits, 9, value);
    }

    /// Negotiate speed and duplex with the link partner.
    #[verifier::allow_in_spec]
    pub fn read_auto_negotiation_enable(&self) -> bool
        returns
            flag(self.bits, 7),
    {
        get_flag(self.bits, 7)
    }

    /// The register with `auto_negotiation_enable` replaced.
    #[verifier::allow_in_spec]
    pub fn with_auto_negotiation_enable(self, value: bool) -> Self
        returns
            (P1CR { bits: with_flag(self.bits, 7, value) }),
    {
        P1CR { bits: set_flag(self.bits, 7, value) }
    }

    /// Replaces `auto_negotiation_enable` in place.
    pub fn write_auto_negotiation_enable(&mut self, value: bool)
        ensures
            *final(self) == old(self).with_auto_negotiation_enable(value),
    {
        self.bits = set_flag(self.bits, 7, value);
    }

    /// The speed to use without auto-negotiation.
    #[verifier::allow_in_spec]
    pub fn read_force_speed(&self) -> LinkSpeed
        returns
            LinkSpeed::decode(small_field(self.bits, 6, 1)),
    {
        LinkSpeed::from_bits(get_small_field(self.bits, 6, 1))
    }

    /// The register with `force_speed` replaced.
    #[verifier::allow_in_spec]
    pub fn with_force_speed(self, value: LinkSpeed) -> Self
        returns
            (P1CR { bits: with_field(self.bits, 6, 1, value.code() as u16) }),
    {
        P1CR { bits: set_field(self.bits, 6, 1, value.bits() as u16) }
    }

    /// Replaces `force_speed` in place.
    pub fn write_force_speed(&mut self, value: LinkSpeed)
        ensures
            *final(self) == old(self).with_force_speed(value),
    {
        self.bits = set_field(self.bits, 6, 1, value.bits() as u16);
    }

    /// Use full duplex without auto-negotiation.
    #[verifier::allow_in_spec]
    pub fn read_force_duplex(&self) -> bool
        returns
            flag(self.bits, 5),
    {
        get_flag(self.bits, 5)
    }

    /// The register with `force_duplex` replaced.
    #[verifier::allow_in_spec]
    pub fn with_force_duplex(self, value: bool) -> Self
        returns
            (P1CR { bits: with_flag(self.bits, 5, value) }),
    {
        P1CR { bits: set_flag(self.bits, 5, value) }
    }

    /// Replaces `force_duplex` in place.
    pub fn write_force_duplex(&mut self, value: bool)
        ensures
            *final(self) == old(self).with_force_duplex(value),
    {
        self.bits = set_flag(self.bits, 5, value);
    }

    /// Advertise flow control.
    #[verifier::allow_in_spec]
    pub fn read_advertise_flow_control_capability(&self) -> bool
        returns
            flag(self.bits, 4),
    {
        get_flag(self.bits, 4)
    }

    /// The register with `advertise_flow_control_capability` replaced.
    #[verifier::allow_in_spec]
    pub fn with_advertise_flow_control_capability(self, value: bool) -> Self
        returns
            (P1CR { bits: with_flag(self.bits, 4, value) }),
    {
        P1CR { bits: set_flag(self.bits, 4, value) }
    }

    /// Replaces `advertise_flow_control_capability` in place.
    pub fn write_advertise_flow_control_capability(&mut self, value: bool)
        ensures
            *final(self) == old(self).with_advertise_flow_control_capability(value),
    {
        self.bits = set_flag(self.bits, 4, value);
    }

    /// Advertise 100BASE-TX full duplex.
    #[verifier::allow_in_spec]
    pub fn read_advertise_100bt_full_duplex_cabability(&self) -> bool
        returns
            flag(self.bits, 3),
    {
        get_flag(self.bits, 3)
    }

    /// The register with `advertise_100bt_full_duplex_cabability` replaced.
    #[verifier::allow_in_spec]
    pub fn with_advertise_100bt_full_duplex_cabability(self, value: bool) -> Self
        returns
            (P1CR { bits: with_flag(self.bits, 3, value) }),
    {
        P1CR { bits: set_flag(self.bits, 3, value) }
    }

    /// Replaces `advertise_100bt_full_duplex_cabability` in place.
    pub fn write_advertise_100bt_full_duplex_cabability(&mut self, value: bool)
        ensures
            *final(self) == old(self).with_advertise_100bt_full_duplex_cabability(value),
    {
        self.bits = set_flag(self.bits, 3, value);
    }

    /// Advertise 100BASE-TX half duplex.
    #[verifier::allow_in_spec]
    pub fn read_advertise_100bt_half_duplex_cabability(&self) -> bool
        returns
            flag(self.bits, 2),
    {
        get_flag(self.bits, 2)
    }

    /// The register with `advertise_100bt_half_duplex_cabability` replaced.
    #[verifier::allow_in_spec]
    pub fn with_advertise_100bt_half_duplex_cabability(self, value: bool) -> Self
        returns
            (P1CR { bits: with_flag(self.bits, 2, value) }),
    {
        P1CR { bits: set_flag(self.bits, 2, value) }
    }

    /// Replaces `advertise_100bt_half_duplex_cabability` in place.
    pub fn write_advertise_100bt_half_duplex_cabability(&mut self, value: bool)
        ensures
            *final(self) == old(self).with_advertise_100bt_half_duplex_cabability(value),
    {
        self.bits = set_flag(self.bits, 2, value);
    }

    /// Advertise 10BASE-T full duplex.
    #[verifier::allow_in_spec]
    pub fn read_advertise_10bt_full_duplex_cabability(&self) -> bool
        returns
            flag(self.bits, 1),
    {
        get_flag(self.bits, 1)
    }

    /// The register with `advertise_10bt_full_duplex_cabability` replaced.
    #[verifier::allow_in_spec]
    pub fn with_advertise_10bt_full_duplex_cabability(self, value: bool) -> Self
        returns
            (P1CR { bits: with_flag(self.bits, 1, value) }),
    {
        P1CR { bits: set_flag(self.bits, 1, value) }
    }

    /// Replaces `advertise_10bt_full_duplex_cabability` in place.
    pub fn write_advertise_10bt_full_duplex_cabability(&mut self, value: bool)
        ensures
            *final(self) == old(self).with_advertise_10bt_full_duplex_cabability(value),
    {
        self.bits = set_flag(self.bits, 1, value);
    }

    /// Advertise 10BASE-T half duplex.
    #[verifier::allow_in_spec]
    pub fn read_advertise_10bt_half_duplex_cabability(&self) -> bool
        returns
            flag(self.bits, 0),
    {
        get_flag(self.bits, 0)
    }

    /// The register with `advertise_10bt_half_duplex_cabability` replaced.
    #[verifier::allow_in_spec]
    pub fn with_advertise_10bt_half_duplex_cabability(self, value: bool) -> Self
        returns
            (P1CR { bits: with_flag(self.bits, 0, value) }),
    {
        P1CR { bits: set_flag(self.bits, 0, value) }
    }

    /// Replaces `advertise_10bt_half_duplex_cabability` in place.
    pub fn write_advertise_10bt_half_duplex_cabability(&mut self, value: bool)
        ensures
            *final(self) == old(self).with_advertise_10bt_half_duplex_cabability(value),
    {
        self.bits = set_flag(self.bits, 0, value);
    }
}

/// Port 1 status register.
#[derive(Clone, Copy, Debug, PartialEq, Eq, Structural)]
pub struct P1SR {
    /// The register word; bit 15 is the most significant.
    pub bits: u16,
}

impl P1SR {
    /// The register's address on the chip.
    pub const ADDRESS: u8 = 0xF8;

    /// The register from its two bytes in bus order, low byte first.
    pub fn from_bytes(data: [u8; 2]) -> (r: Self)
        ensures
            r.bits == word_of(data[0], data[1]),
    {
        P1SR { bits: join(data[0], data[1]) }
    }

    /// The register's two bytes in bus order, low byte first.
    pub fn data(&self) -> (d: [u8; 2])
        ensures
            d[0] == low_byte(self.bits),
            d[1] == high_byte(self.bits),
    {
        let (lo, hi) = split(self.bits);
        [lo, hi]
    }

    /// The port follows the HP auto MDI-X convention.
    #[verifier::allow_in_spec]
    pub fn read_hp_mdix(&self) -> bool
        returns
            flag(self.bits, 15),
    {
        get_flag(self.bits, 15)
    }

    /// The receive pair is swapped.
    #[verifier::allow_in_spec]
    pub fn read_polarity_reversed(&self) -> bool
        returns
            flag(self.bits, 13),
    {
        get_flag(self.bits, 13)
    }

    /// The speed of the link.
    #[verifier::allow_in_spec]
    pub fn read_speed(&self) -> LinkSpeed
        returns
            LinkSpeed::decode(small_field(self.bits, 10, 1)),
    {
        LinkSpeed::from_bits(get_small_field(self.bits, 10, 1))
    }

    /// The link runs full duplex.
    #[verifier::allow_in_spec]
    pub fn read_full_duplex(&self) -> bool
        returns
            flag(self.bits, 9),
    {
        get_flag(self.bits, 9)
    }

    /// Which wiring the port settled on.
    #[verifier::allow_in_spec]
    pub fn read_mdix_status(&self) -> MDIXStatus
        returns
            MDIXStatus::decode(small_field(self.bits, 7, 1)),
    {
        MDIXStatus::from_bits(get_small_field(self.bits, 7, 1))
    }

    /// Auto-negotiation has finished.
    #[verifier::allow_in_spec]
    pub fn read_autonegotiation_done(&self) -> bool
        returns
            flag(self.bits, 6),
    {
        get_flag(self.bits, 6)
    }

    /// The link is up.
    #[verifier::allow_in_spec]
    pub fn read_link_good(&self) -> bool
        returns
            flag(self.bits, 5),
    {
        get_flag(self.bits, 5)
    }

    /// The link partner advertises flow control.
    #[verifier::allow_in_spec]
    pub fn read_partner_flow_control_capable(&self) -> bool
        returns
            flag(self.bits, 4),
    {
        get_flag(self.bits, 4)
    }

    /// The link partner advertises 100BASE-TX full duplex.
    #[verifier::allow_in_spec]
    pub fn read_partner_100bt_full_duplex_capable(&self) -> bool
        returns
            flag(self.bits, 3),
    {
        get_flag(self.bits, 3)
    }

    /// The link partner advertises 100BASE-TX half duplex.
    #[verifier::allow_in_spec]
    pub fn read_partner_100bt_half_duplex_capable(&self) -> bool
        returns
            flag(self.bits, 2),
    {
        get_flag(self.bits, 2)
    }

    /// The link partner advertises 10BASE-T full duplex.
    #[verifier::allow_in_spec]
    pub fn read_partner_10bt_full_duplex_capable(&self) -> bool
        returns
            flag(self.bits, 1),
    {
        get_flag(self.bits, 1)
    }

    /// The link partner advertises 10BASE-T half duplex.
    #[verifier::allow_in_spec]
    pub fn read_partner_10bt_half_duplex_capable(&self) -> bool
        returns
            flag(self.bits, 0),
    {
        get_flag(self.bits, 0)
    }
}

} // verus!
