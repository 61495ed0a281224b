//! Registers of the receive path.

use crate::bits::{
    field, flag, get_field, get_flag, get_small_field, high_byte, join, low_byte, set_field,
    set_flag, small_field, split, with_field, with_flag, word_of,
};
use vstd::prelude::*;

verus! {

/// How much data one bulk read of the receive queue transfers. A value that
/// names no other variant reads as the last one.
#[allow(non_camel_case_types)]
#[derive(Clone, Copy, Debug, PartialEq, Eq, Structural)]
pub enum SPIRxDataBurstLength {
    /// Four bytes.
    _4BYTE,
    /// Eight bytes.
    _8BYTE,
    /// Sixteen bytes.
    _16BYTE,
    /// Thirty-two bytes.
    _32BYTE,
    /// One whole frame.
    SINGLEFRAME,
}

impl SPIRxDataBurstLength {
    /// The number that stands for the variant in the register.
    pub open spec fn code(self) -> u8 {
        match self {
            SPIRxDataBurstLength::_4BYTE => 0,
            SPIRxDataBurstLength::_8BYTE => 1,
            SPIRxDataBurstLength::_16BYTE => 2,
            SPIRxDataBurstLength::_32BYTE => 3,
            SPIRxDataBurstLength::SINGLEFRAME => 4,
        }
    }

    /// The variant that a number read from the register stands for.
    pub open spec fn decode(bits: u8) -> Self {
        if bits == 0 {
            SPIRxDataBurstLength::_4BYTE
        } else if bits == 1 {
            SPIRxDataBurstLength::_8BYTE
        } else if bits == 2 {
            SPIRxDataBurstLength::_16BYTE
        } else if bits == 3 {
            SPIRxDataBurstLength::_32BYTE
        } else {
            SPIRxDataBurstLength::SINGLEFRAME
        }
    }

    /// Computes [`Self::code`].
    pub fn bits(self) -> (b: u8)
        ensures
            b == self.code(),
    {
        match self {
            SPIRxDataBurstLength::_4BYTE => 0,
            SPIRxDataBurstLength::_8BYTE => 1,
            SPIRxDataBurstLength::_16BYTE => 2,
            SPIRxDataBurstLength::_32BYTE => 3,
            SPIRxDataBurstLength::SINGLEFRAME => 4,
        }
    }

    /// Computes [`Self::decode`].
    pub fn from_bits(bits: u8) -> (v: Self)
        ensures
            v == Self::decode(bits),
    {
        if bits == 0 {
            SPIRxDataBurstLength::_4BYTE
        } else if bits == 1 {
            SPIRxDataBurstLength::_8BYTE
        } else if bits == 2 {
            SPIRxDataBurstLength::_16BYTE
        } else if bits == 3 {
            SPIRxDataBurstLength::_32BYTE
        } else {
            SPIRxDataBurstLength::SINGLEFRAME
        }
    }
}

/// Receive control register 1.
#[derive(Clone, Copy, Debug, PartialEq, Eq, Structural)]
pub struct RXCR1 {
    /// The register word; bit 15 is the most significant.
    pub bits: u16,
}

impl RXCR1 {
    /// The register's address on the chip.
    pub const ADDRESS: u8 = 0x74;

    /// The register with every bit clear.
    #[verifier::allow_in_spec]
    pub fn zeroed() -> Self
        returns
            (RXCR1 { bits: 0 }),
    {
        RXCR1 { bits: 0 }
    }

    /// The register from its two bytes in bus order, low byte first.
    pub fn from_bytes(data: [u8; 2]) -> (r: Self)
        ensures
            r.bits == word_of(data[0], data[1]),
    {
        RXCR1 { bits: join(data[0], data[1]) }
    }

    /// The register's two bytes in bus order, low byte first.
    pub fn data(&self) -> (d: [u8; 2])
        ensures
            d[0] == low_byte(self.bits),
            d[1] == high_byte(self.bits),
    {
        let (lo, hi) = split(self.bits);
        [lo, hi]
    }

    /// Empty the receive queue.
    #[verifier::allow_in_spec]
    pub fn read_flush_receive_queue(&self) -> bool
        returns
            flag(self.bits, 15),
    {
        get_flag(self.bits, 15)
    }

    /// The register with `flush_receive_queue` replaced.
    #[verifier::allow_in_spec]
    pub fn with_flush_receive_queue(self, value: bool) -> Self
        returns
            (RXCR1 { bits: with_flag(self.bits, 15, value) }),
    {
        RXCR1 { bits: set_flag(self.bits, 15, value) }
    }

    /// Replaces `flush_receive_queue` in place.
    pub fn write_flush_receive_queue(&mut self, value: bool)
        ensures
            *final(self) == old(self).with_flush_receive_queue(value),
    {
        self.bits = set_flag(self.bits, 15, value);
    }

    /// Check the UDP checksum of incoming frames.
    #[verifier::allow_in_spec]
    pub fn read_receive_udp_frame_checksum_check_enable(&self) -> bool
        returns
            flag(self.bits, 14),
    {
        get_flag(self.bits, 14)
    }

    /// The register with `receive_udp_frame_checksum_check_enable` replaced.
    #[verifier::allow_in_spec]
    pub fn with_receive_udp_frame_checksum_check_enable(self, value: bool) -> Self
        returns
            (RXCR1 { bits: with_flag(self.bits, 14, value) }),
    {
        RXCR1 { bits: set_flag(self.bits, 14, value) }
    }

    /// Replaces `receive_udp_frame_checksum_check_enable` in place.
    pub fn write_receive_udp_frame_checksum_check_enable(&mut self, value: bool)
        ensures
            *final(self) == old(self).with_receive_udp_frame_checksum_check_enable(value),
    {
        self.bits = set_flag(self.bits, 14, value);
    }

    /// Check the TCP checksum of incoming frames.
    #[verifier::allow_in_spec]
    pub fn read_receive_tcp_frame_checksum_check_enable(&self) -> bool
        returns
            flag(self.bits, 13),
    {
        get_flag(self.bits, 13)
    }

    /// The register with `receive_tcp_frame_checksum_check_enable` replaced.
    #[verifier::allow_in_spec]
    pub fn with_receive_tcp_frame_checksum_check_enable(self, value: bool) -> Self
        returns
            (RXCR1 { bits: with_flag(self.bits, 13, value) }),
    {
        RXCR1 { bits: set_flag(self.bits, 13, value) }
    }

    /// Replaces `receive_tcp_frame_checksum_check_enable` in place.
    pub fn write_receive_tcp_frame_checksum_check_enable(&mut self, value: bool)
        ensures
            *final(self) == old(self).with_receive_tcp_frame_checksum_check_enable(value),
    {
        self.bits = set_flag(self.bits, 13, value);
    }

    /// Check the IP header checksum of incoming frames.
    #[verifier::allow_in_spec]
    pub fn read_receive_ip_frame_checksum_check_enable(&self) -> bool
        returns
            flag(self.bits, 12),
    {
        get_flag(self.bits, 12)
    }

    /// The register with `receive_ip_frame_checksum_check_enable` replaced.
    #[verifier::allow_in_spec]
    pub fn with_receive_ip_frame_checksum_check_enable(self, value: bool) -> Self
        returns
            (RXCR1 { bits: with_flag(self.bits, 12, value) }),
    {
        RXCR1 { bits: set_flag(self.bits, 12, value) }
    }

    /// Replaces `receive_ip_frame_checksum_check_enable` in place.
    pub fn write_receive_ip_frame_checksum_check_enable(&mut self, value: bool)
        ensures
            *final(self) == old(self).with_receive_ip_frame_checksum_check_enable(value),
    {
        self.bits = set_flag(self.bits, 12, value);
    }

    /// Filter unicast frames by the station address.
    #[verifier::allow_in_spec]
    pub fn read_receive_physical_address_filtering_with_mac_address_enable(&self) -> bool
        returns
            flag(self.bits, 11),
    {
        get_flag(self.bits, 11)
    }

    /// The register with `receive_physical_address_filtering_with_mac_address_enable` replaced.
    #[verifier::allow_in_spec]
    pub fn with_receive_physical_address_filtering_with_mac_address_enable(self, value: bool) -> Self
        returns
            (RXCR1 { bits: with_flag(self.bits, 11, value) }),
    {
        RXCR1 { bits: set_flag(self.bits, 11, value) }
    }

    /// Replaces `receive_physical_address_filtering_with_mac_address_enable` in place.
    pub fn write_receive_physical_address_filtering_with_mac_address_enable(&mut self, value: bool)
        ensures
            *final(self) == old(self).with_receive_physical_address_filtering_with_mac_address_enable(value),
    {
        self.bits = set_flag(self.bits, 11, value);
    }

    /// Honour pause frames.
    #[verifier::allow_in_spec]
    pub fn read_receive_flow_control_enable(&self) -> bool
        returns
            flag(self.bits, 10),
    {
        get_flag(self.bits, 10)
    }

    /// The register with `receive_flow_control_enable` replaced.
    #[verifier::allow_in_spec]
    pub fn with_receive_flow_control_enable(self, value: bool) -> Self
        returns
            (RXCR1 { bits: with_flag(self.bits, 10, value) }),
    {
        RXCR1 { bits: set_flag(self.bits, 10, value) }
    }

    /// Replaces `receive_flow_control_enable` in place.
    pub fn write_receive_flow_control_enable(&mut self, value: bool)
        ensures
            *final(self) == old(self).with_receive_flow_control_enable(value),
    {
        self.bits = set_flag(self.bits, 10, value);
    }

    /// Keep frames with errors.
    #[verifier::allow_in_spec]
    pub fn read_receive_error_frame_enable(&self) -> bool
        returns
            flag(self.bits, 9),
    {
        get_flag(self.bits, 9)
    }

    /// The register with `receive_error_frame_enable` replaced.
    #[verifier::allow_in_spec]
    pub fn with_receive_error_frame_enable(self, value: bool) -> Self
        returns
            (RXCR1 { bits: with_flag(self.bits, 9, value) }),
    {
        RXCR1 { bits: set_flag(self.bits, 9, value) }
    }

    /// Replaces `receive_error_frame_enable` in place.
    pub fn write_receive_error_frame_enable(&mut self, value: bool)
        ensures
            *final(self) == old(self).with_receive_error_frame_enable(value),
    {
        self.bits = set_flag(self.bits, 9, value);
    }

    /// Filter multicast frames by the station address.
    #[verifier::allow_in_spec]
    pub fn read_receive_multicast_address_filtering_with_mac_address_enable(&self) -> bool
        returns
            flag(self.bits, 8),
    {
        get_flag(self.bits, 8)
    }

    /// The register with `receive_multicast_address_filtering_with_mac_address_enable` replaced.
    #[verifier::allow_in_spec]
    pub fn with_receive_multicast_address_filtering_with_mac_address_enable(self, value: bool) -> Self
        returns
            (RXCR1 { bits: with_flag(self.bits, 8, value) }),
    {
        RXCR1 { bits: set_flag(self.bits, 8, value) }
    }

    /// Replaces `receive_multicast_address_filtering_with_mac_address_enable` in place.
    pub fn write_receive_multicast_address_filtering_with_mac_address_enable(&mut self, value: bool)
        ensures
            *final(self) == old(self).with_receive_multicast_address_filtering_with_mac_address_enable(value),
    {
        self.bits = set_flag(self.bits, 8, value);
    }

    /// Accept broadcast frames.
    #[verifier::allow_in_spec]
    pub fn read_receive_broadcast_enable(&self) -> bool
        returns
            flag(self.bits, 7),
    {
        get_flag(self.bits, 7)
    }

    /// The register with `receive_broadcast_enable` replaced.
    #[verifier::allow_in_spec]
    pub fn with_receive_broadcast_enable(self, value: bool) -> Self
        returns
            (RXCR1 { bits: with_flag(self.bits, 7, value) }),
    {
        RXCR1 { bits: set_flag(self.bits, 7, value) }
    }

    /// Replaces `receive_broadcast_enable` in place.
    pub fn write_receive_broadcast_enable(&mut self, value: bool)
        ensures
            *final(self) == old(self).with_receive_broadcast_enable(value),
    {
        self.bits = set_flag(self.bits, 7, value);
    }

    /// Accept multicast frames.
    #[verifier::allow_in_spec]
    pub fn read_receive_multicast_enable(&self) -> bool
        returns
            flag(self.bits, 6),
    {
        get_flag(self.bits, 6)
    }

    /// The register with `receive_multicast_enable` replaced.
    #[verifier::allow_in_spec]
    pub fn with_receive_multicast_enable(self, value: bool) -> Self
        returns
            (RXCR1 { bits: with_flag(self.bits, 6, value) }),
    {
        RXCR1 { bits: set_flag(self.bits, 6, value) }
    }

    /// Replaces `receive_multicast_enable` in place.
    pub fn write_receive_multicast_enable(&mut self, value: bool)
        ensures
            *final(self) == old(self).with_receive_multicast_enable(value),
    {
        self.bits = set_flag(self.bits, 6, value);
    }

    /// Accept unicast frames.
    #[verifier::allow_in_spec]
    pub fn read_receive_unicast_enable(&self) -> bool
        returns
            flag(self.bits, 5),
    {
        get_flag(self.bits, 5)
    }

    /// The register with `receive_unicast_enable` replaced.
    #[verifier::allow_in_spec]
    pub fn with_receive_unicast_enable(self, value: bool) -> Self
        returns
            (RXCR1 { bits: with_flag(self.bits, 5, value) }),
    {
        RXCR1 { bits: set_flag(self.bits, 5, value) }
    }

    /// Replaces `receive_unicast_enable` in place.
    pub fn write_receive_unicast_enable(&mut self, value: bool)
        ensures
            *final(self) == old(self).with_receive_unicast_enable(value),
    {
        self.bits = set_flag(self.bits, 5, value);
    }

    /// Accept every frame.
    #[verifier::allow_in_spec]
    pub fn read_receive_all_enable(&self) -> bool
        returns
            flag(self.bits, 4),
    {
        get_flag(self.bits, 4)
    }

    /// The register with `receive_all_enable` replaced.
    #[verifier::allow_in_spec]
    pub fn with_receive_all_enable(self, value: bool) -> Self
        returns
            (RXCR1 { bits: with_flag(self.bits, 4, value) }),
    {
        RXCR1 { bits: set_flag(self.bits, 4, value) }
    }

    /// Replaces `receive_all_enable` in place.
    pub fn write_receive_all_enable(&mut self, value: bool)
        ensures
            *final(self) == old(self).with_receive_all_enable(value),
    {
        self.bits = set_flag(self.bits, 4, value);
    }

    /// Invert the address filter.
    #[verifier::allow_in_spec]
    pub fn read_receive_inverse_filtering(&self) -> bool
        returns
            flag(self.bits, 1),
    {
        get_flag(self.bits, 1)
    }

    /// The register with `receive_inverse_filtering` replaced.
    #[verifier::allow_in_spec]
    pub fn with_receive_inverse_filtering(self, value: bool) -> Self
        returns
            (RXCR1 { bits: with_flag(self.bits, 1, value) }),
    {
        RXCR1 { bits: set_flag(self.bits, 1, value) }
    }

    /// Replaces `receive_inverse_filtering` in place.
    pub fn write_receive_inverse_filtering(&mut self, value: bool)
        ensures
            *final(self) == old(self).with_receive_inverse_filtering(value),
    {
        self.bits = set_flag(self.bits, 1, value);
    }

    /// Run the receiver.
    #[verifier::allow_in_spec]
    pub fn read_receive_enable(&self) -> bool
        returns
            flag(self.bits, 0),
    {
        get_flag(self.bits, 0)
    }

    /// The register with `receive_enable` replaced.
    #[verifier::allow_in_spec]
    pub fn with_receive_enable(self, value: bool) -> Self
        returns
            (RXCR1 { bits: with_flag(self.bits, 0, value) }),
    {
        RXCR1 { bits: set_flag(self.bits, 0, value) }
    }

    /// Replaces `receive_enable` in place.
    pub fn write_receive_enable(&mut self, value: bool)
        ensures
            *final(self) == old(self).with_receive_enable(value),
    {
        self.bits = set_flag(self.bits, 0, value);
    }
}

/// Receive control register 2.
#[derive(Clone, Copy, Debug, PartialEq, Eq, Structural)]
pub struct RXCR2 {
    /// The register word; bit 15 is the most significant.
    pub bits: u16,
}

impl RXCR2 {
    /// The register's address on the chip.
    pub const ADDRESS: u8 = 0x76;

    /// The register with every bit clear.
    #[verifier::allow_in_spec]
    pub fn zeroed() -> Self
        returns
            (RXCR2 { bits: 0 }),
    {
        RXCR2 { bits: 0 }
    }

    /// The register from its two bytes in bus order, low byte first.
    pub fn from_bytes(data: [u8; 2]) -> (r: Self)
        ensures
            r.bits == word_of(data[0], data[1]),
    {
        RXCR2 { bits: join(data[0], data[1]) }
    }

    /// The register's two bytes in bus order, low byte first.
    pub fn data(&self) -> (d: [u8; 2])
        ensures
            d[0] == low_byte(self.bits),
            d[1] == high_byte(self.bits),
    {
        let (lo, hi) = split(self.bits);
        [lo, hi]
    }

    /// How much one bulk read transfers.
    #[verifier::allow_in_spec]
    pub fn read_spi_receive_data_burst_length(&self) -> SPIRxDataBurstLength
        returns
            SPIRxDataBurstLength::decode(small_field(self.bits, 5, 3)),
    {
        SPIRxDataBurstLength::from_bits(get_small_field(self.bits, 5, 3))
    }

    /// The register with `spi_receive_data_burst_length` replaced.
    #[verifier::allow_in_spec]
    pub fn with_spi_receive_data_burst_length(self, value: SPIRxDataBurstLength) -> Self
        returns
            (RXCR2 { bits: with_field(self.bits, 5, 3, value.code() as u16) }),
    {
        RXCR2 { bits: set_field(self.bits, 5, 3, value.bits() as u16) }
    }

    /// Replaces `spi_receive_data_burst_length` in place.
    pub fn write_spi_receive_data_burst_length(&mut self, value: SPIRxDataBurstLength)
        ensures
            *final(self) == old(self).with_spi_receive_data_burst_length(value),
    {
        self.bits = set_field(self.bits, 5, 3, value.bits() as u16);
    }

    /// Pass fragmented UDP frames without a checksum check.
    #[verifier::allow_in_spec]
    pub fn read_ip4_ip6_udp_fragment_frame_pass(&self) -> bool
        returns
            flag(self.bits, 4),
    {
        get_flag(self.bits, 4)
    }

    /// The register with `ip4_ip6_udp_fragment_frame_pass` replaced.
    #[verifier::allow_in_spec]
    pub fn with_ip4_ip6_udp_fragment_frame_pass(self, value: bool) -> Self
        returns
            (RXCR2 { bits: with_flag(self.bits, 4, value) }),
    {
        RXCR2 { bits: set_flag(self.bits, 4, value) }
    }

    /// Replaces `ip4_ip6_udp_fragment_frame_pass` in place.
    pub fn write_ip4_ip6_udp_fragment_frame_pass(&mut self, value: bool)
        ensures
            *final(self) == old(self).with_ip4_ip6_udp_fragment_frame_pass(value),
    {
        self.bits = set_flag(self.bits, 4, value);
    }

    /// Accept UDP frames whose checksum field is zero.
    #[verifier::allow_in_spec]
    pub fn read_receive_ip4_ip6_udp_frame_checksum_equal_zero(&self) -> bool
        returns
            flag(self.bits, 3),
    {
        get_flag(self.bits, 3)
    }

    /// The register with `receive_ip4_ip6_udp_frame_checksum_equal_zero` replaced.
    #[verifier::allow_in_spec]
    pub fn with_receive_ip4_ip6_udp_frame_checksum_equal_zero(self, value: bool) -> Self
        returns
            (RXCR2 { bits: with_flag(self.bits, 3, value) }),
    {
        RXCR2 { bits: set_flag(self.bits, 3, value) }
    }

    /// Replaces `receive_ip4_ip6_udp_frame_checksum_equal_zero` in place.
    pub fn write_receive_ip4_ip6_udp_frame_checksum_equal_zero(&mut self, value: bool)
        ensures
            *final(self) == old(self).with_receive_ip4_ip6_udp_frame_checksum_equal_zero(value),
    {
        self.bits = set_flag(self.bits, 3, value);
    }

    /// Check the checksum of UDP-Lite frames.
    #[verifier::allow_in_spec]
    pub fn read_udp_lite_frame_enable(&self) -> bool
        returns
            flag(self.bits, 2),
    {
        get_flag(self.bits, 2)
    }

    /// The register with `udp_lite_frame_enable` replaced.
    #[verifier::allow_in_spec]
    pub fn with_udp_lite_frame_enable(self, value: bool) -> Self
        returns
            (RXCR2 { bits: with_flag(self.bits, 2, value) }),
    {
        RXCR2 { bits: set_flag(self.bits, 2, value) }
    }

    /// Replaces `udp_lite_frame_enable` in place.
    pub fn write_udp_lite_frame_enable(&mut self, value: bool)
        ensures
            *final(self) == old(self).with_udp_lite_frame_enable(value),
    {
        self.bits = set_flag(self.bits, 2, value);
    }

    /// Check the ICMP checksum of incoming frames.
    #[verifier::allow_in_spec]
    pub fn read_receive_icmp_frame_checksum_check_enable(&self) -> bool
        returns
            flag(self.bits, 1),
    {
        get_flag(self.bits, 1)
    }

    /// The register with `receive_icmp_frame_checksum_check_enable` replaced.
    #[verifier::allow_in_spec]
    pub fn with_receive_icmp_frame_checksum_check_enable(self, value: bool) -> Self
        returns
            (RXCR2 { bits: with_flag(self.bits, 1, value) }),
    {
        RXCR2 { bits: set_flag(self.bits, 1, value) }
    }

    /// Replaces `receive_icmp_frame_checksum_check_enable` in place.
    pub fn write_receive_icmp_frame_checksum_check_enable(&mut self, value: bool)
        ensures
            *final(self) == old(self).with_receive_icmp_frame_checksum_check_enable(value),
    {
        self.bits = set_flag(self.bits, 1, value);
    }

    /// Drop frames sent from the station address.
    #[verifier::allow_in_spec]
    pub fn read_receive_source_address_filtering(&self) -> bool
        returns
            flag(self.bits, 0),
    {
        get_flag(self.bits, 0)
    }

    /// The register with `receive_source_address_filtering` replaced.
    #[verifier::allow_in_spec]
    pub fn with_receive_source_address_filtering(self, value: bool) -> Self
        returns
            (RXCR2 { bits: with_flag(self.bits, 0, value) }),
    {
        RXCR2 { bits: set_flag(self.bits, 0, value) }
    }

    /// Replaces `receive_source_address_filtering` in place.
    pub fn write_receive_source_address_filtering(&mut self, value: bool)
        ensures
            *final(self) == old(self).with_receive_source_address_filtering(value),
    {
        self.bits = set_flag(self.bits, 0, value);
    }
}

/// Receive frame header status register.
#[derive(Clone, Copy, Debug, PartialEq, Eq, Structural)]
pub struct RXFHSR {
    /// The register word; bit 15 is the most significant.
    pub bits: u16,
}

impl RXFHSR {
    /// The register's address on the chip.
    pub const ADDRESS: u8 = 0x7C;

    /// The register from its two bytes in bus order, low byte first.
    pub fn from_bytes(data: [u8; 2]) -> (r: Self)
        ensures
            r.bits == word_of(data[0], data[1]),
    {
        RXFHSR { bits: join(data[0], data[1]) }
    }

    /// The register's two bytes in bus order, low byte first.
    pub fn data(&self) -> (d: [u8; 2])
        ensures
            d[0] == low_byte(self.bits),
            d[1] == high_byte(self.bits),
    {
        let (lo, hi) = split(self.bits);
        [lo, hi]
    }

    /// The frame at the head of the queue is complete.
    #[verifier::allow_in_spec]
    pub fn read_frame_valid(&self) -> bool
        returns
            flag(self.bits, 15),
    {
        get_flag(self.bits, 15)
    }

    /// The ICMP checksum is wrong.
    #[verifier::allow_in_spec]
    pub fn read_icmp_checksum_status(&self) -> bool
        returns
            flag(self.bits, 13),
    {
        get_flag(self.bits, 13)
    }

    /// The IP header checksum is wrong.
    #[verifier::allow_in_spec]
    pub fn read_ip_checksum_status(&self) -> bool
        returns
            flag(self.bits, 12),
    {
        get_flag(self.bits, 12)
    }

    /// The TCP checksum is wrong.
    #[verifier::allow_in_spec]
    pub fn read_tcp_checksum_status(&self) -> bool
        returns
            flag(self.bits, 11),
    {
        get_flag(self.bits, 11)
    }

    /// The UDP checksum is wrong.
    #[verifier::allow_in_spec]
    pub fn read_udp_checksum_status(&self) -> bool
        returns
            flag(self.bits, 10),
    {
        get_flag(self.bits, 10)
    }

    /// The frame was sent to the broadcast address.
    #[verifier::allow_in_spec]
    pub fn read_broadcast_frame(&self) -> bool
        returns
            flag(self.bits, 7),
    {
        get_flag(self.bits, 7)
    }

    /// The frame was sent to a multicast address.
    #[verifier::allow_in_spec]
    pub fn read_multicast_frame(&self) -> bool
        returns
            flag(self.bits, 6),
    {
        get_flag(self.bits, 6)
    }

    /// The frame was sent to the station address.
    #[verifier::allow_in_spec]
    pub fn read_unicast_frame(&self) -> bool
        returns
            flag(self.bits, 5),
    {
        get_flag(self.bits, 5)
    }

    /// The PHY reported an error during reception.
    #[verifier::allow_in_spec]
    pub fn read_mii_error(&self) -> bool
        returns
            flag(self.bits, 4),
    {
        get_flag(self.bits, 4)
    }

    /// The frame carries an Ethernet type rather than a length.
    #[verifier::allow_in_spec]
    pub fn read_frame_type(&self) -> bool
        returns
            flag(self.bits, 3),
    {
        get_flag(self.bits, 3)
    }

    /// The frame is longer than the maximum.
    #[verifier::allow_in_spec]
    pub fn read_frame_too_long(&self) -> bool
        returns
            flag(self.bits, 2),
    {
        get_flag(self.bits, 2)
    }

    /// The frame is shorter than the minimum.
    #[verifier::allow_in_spec]
    pub fn read_runt_frame(&self) -> bool
        returns
            flag(self.bits, 1),
    {
        get_flag(self.bits, 1)
    }

    /// The frame check sequence is wrong.
    #[verifier::allow_in_spec]
    pub fn read_crc_error(&self) -> bool
        returns
            flag(self.bits, 0),
    {
        get_flag(self.bits, 0)
    }
}

/// Receive frame header byte count register.
#[derive(Clone, Copy, Debug, PartialEq, Eq, Structural)]
pub struct RXFHBCR {
    /// The register word; bit 15 is the most significant.
    pub bits: u16,
}

impl RXFHBCR {
    /// The register's address on the chip.
    pub const ADDRESS: u8 = 0x7E;

    /// The register from its two bytes in bus order, low byte first.
    pub fn from_bytes(data: [u8; 2]) -> (r: Self)
        ensures
            r.bits == word_of(data[0], data[1]),
    {
        RXFHBCR { bits: join(data[0], data[1]) }
    }

    /// The register's two bytes in bus order, low byte first.
    pub fn data(&self) -> (d: [u8; 2])
        ensures
            d[0] == low_byte(self.bits),
            d[1] == high_byte(self.bits),
    {
        let (lo, hi) = split(self.bits);
        [lo, hi]
    }

    /// The length of the frame at the head of the queue, check sequence
    /// included.
    #[verifier::allow_in_spec]
    pub fn read_receive_byte_count(&self) -> u16
        returns
            field(self.bits, 0, 12),
    {
        get_field(self.bits, 0, 12)
    }
}

/// Receive queue command register.
#[derive(Clone, Copy, Debug, PartialEq, Eq, Structural)]
pub struct RXQCR {
    /// The register word; bit 15 is the most significant.
    pub bits: u16,
}

impl RXQCR {
    /// The register's address on the chip.
    pub const ADDRESS: u8 = 0x82;

    /// The register with every bit clear.
    #[verifier::allow_in_spec]
    pub fn zeroed() -> Self
        returns
            (RXQCR { bits: 0 }),
    {
        RXQCR { bits: 0 }
    }

    /// The register from its two bytes in bus order, low byte first.
    pub fn from_bytes(data: [u8; 2]) -> (r: Self)
        ensures
            r.bits == word_of(data[0], data[1]),
    {
        RXQCR { bits: join(data[0], data[1]) }
    }

    /// The register's two bytes in bus order, low byte first.
    pub fn data(&self) -> (d: [u8; 2])
        ensures
            d[0] == low_byte(self.bits),
            d[1] == high_byte(self.bits),
    {
        let (lo, hi) = split(self.bits);
        [lo, hi]
    }

    /// The duration timer raised the receive interrupt.
    #[verifier::allow_in_spec]
    pub fn read_rx_duration_timer_threshold_status(&self) -> bool
        returns
            flag(self.bits, 12),
    {
        get_flag(self.bits, 12)
    }

    /// The register with `rx_duration_timer_threshold_status` replaced.
    #[verifier::allow_in_spec]
    pub fn with_rx_duration_timer_threshold_status(self, value: bool) -> Self
        returns
            (RXQCR { bits: with_flag(self.bits, 12, value) }),
    {
        RXQCR { bits: set_flag(self.bits, 12, value) }
    }

    /// Replaces `rx_duration_timer_threshold_status` in place.
    pub fn write_rx_duration_timer_threshold_status(&mut self, value: bool)
        ensures
            *final(self) == old(self).with_rx_duration_timer_threshold_status(value),
    {
        self.bits = set_flag(self.bits, 12, value);
    }

    /// The byte count threshold raised the receive interrupt.
    #[verifier::allow_in_spec]
    pub fn read_rx_data_byte_count_threshold_status(&self) -> bool
        returns
            flag(self.bits, 11),
    {
        get_flag(self.bits, 11)
    }

    /// The register with `rx_data_byte_count_threshold_status` replaced.
    #[verifier::allow_in_spec]
    pub fn with_rx_data_byte_count_threshold_status(self, value: bool) -> Self
        returns
            (RXQCR { bits: with_flag(self.bits, 11, value) }),
    {
        RXQCR { bits: set_flag(self.bits, 11, value) }
    }

    /// Replaces `rx_data_byte_count_threshold_status` in place.
    pub fn write_rx_data_byte_count_threshold_status(&mut self, value: bool)
        ensures
            *final(self) == old(self).with_rx_data_byte_count_threshold_status(value),
    {
        self.bits = set_flag(self.bits, 11, value);
    }

    /// The frame count threshold raised the receive interrupt.
    #[verifier::allow_in_spec]
    pub fn read_rx_frame_count_threshold_status(&self) -> bool
        returns
            flag(self.bits, 10),
    {
        get_flag(self.bits, 10)
    }

    /// The register with `rx_frame_count_threshold_status` replaced.
    #[verifier::allow_in_spec]
    pub fn with_rx_frame_count_threshold_status(self, value: bool) -> Self
        returns
            (RXQCR { bits: with_flag(self.bits, 10, value) }),
    {
        RXQCR { bits: set_flag(self.bits, 10, value) }
    }

    /// Replaces `rx_frame_count_threshold_status` in place.
    pub fn write_rx_frame_count_threshold_status(&mut self, value: bool)
        ensures
            *final(self) == old(self).with_rx_frame_count_threshold_status(value),
    {
        self.bits = set_flag(self.bits, 10, value);
    }

    /// Put two bytes before each frame to align its IP header.
    #[verifier::allow_in_spec]
    pub fn read_rx_ip_header_two_byte_offset_enable(&self) -> bool
        returns
            flag(self.bits, 9),
    {
        get_flag(self.bits, 9)
    }

    /// The register with `rx_ip_header_two_byte_offset_enable` replaced.
    #[verifier::allow_in_spec]
    pub fn with_rx_ip_header_two_byte_offset_enable(self, value: bool) -> Self
        returns
            (RXQCR { bits: with_flag(self.bits, 9, value) }),
    {
        RXQCR { bits: set_flag(self.bits, 9, value) }
    }

    /// Replaces `rx_ip_header_two_byte_offset_enable` in place.
    pub fn write_rx_ip_header_two_byte_offset_enable(&mut self, value: bool)
        ensures
            *final(self) == old(self).with_rx_ip_header_two_byte_offset_enable(value),
    {
        self.bits = set_flag(self.bits, 9, value);
    }

    /// Raise the receive interrupt when the duration timer expires.
    #[verifier::allow_in_spec]
    pub fn read_rx_duration_timer_threshold_enable(&self) -> bool
        returns
            flag(self.bits, 7),
    {
        get_flag(self.bits, 7)
    }

    /// The register with `rx_duration_timer_threshold_enable` replaced.
    #[verifier::allow_in_spec]
    pub fn with_rx_duration_timer_threshold_enable(self, value: bool) -> Self
        returns
            (RXQCR { bits: with_flag(self.bits, 7, value) }),
    {
        RXQCR { bits: set_flag(self.bits, 7, value) }
    }

    /// Replaces `rx_duration_timer_threshold_enable` in place.
    pub fn write_rx_duration_timer_threshold_enable(&mut self, value: bool)
        ensures
            *final(self) == old(self).with_rx_duration_timer_threshold_enable(value),
    {
        self.bits = set_flag(self.bits, 7, value);
    }

    /// Raise the receive interrupt at the byte count threshold.
    #[verifier::allow_in_spec]
    pub fn read_rx_data_byte_count_threshold_enable(&self) -> bool
        returns
            flag(self.bits, 6),
    {
        get_flag(self.bits, 6)
    }

    /// The register with `rx_data_byte_count_threshold_enable` replaced.
    #[verifier::allow_in_spec]
    pub fn with_rx_data_byte_count_threshold_enable(self, value: bool) -> Self
        returns
            (RXQCR { bits: with_flag(self.bits, 6, value) }),
    {
        RXQCR { bits: set_flag(self.bits, 6, value) }
    }

    /// Replaces `rx_data_byte_count_threshold_enable` in place.
    pub fn write_rx_data_byte_count_threshold_enable(&mut self, value: bool)
        ensures
            *final(self) == old(self).with_rx_data_byte_count_threshold_enable(value),
    {
        self.bits = set_flag(self.bits, 6, value);
    }

    /// Raise the receive interrupt at the frame count threshold.
    #[verifier::allow_in_spec]
    pub fn read_rx_frame_cound_threshold_enable(&self) -> bool
        returns
            flag(self.bits, 5),
    {
        get_flag(self.bits, 5)
    }

    /// The register with `rx_frame_cound_threshold_enable` replaced.
    #[verifier::allow_in_spec]
    pub fn with_rx_frame_cound_threshold_enable(self, value: bool) -> Self
        returns
            (RXQCR { bits: with_flag(self.bits, 5, value) }),
    {
        RXQCR { bits: set_flag(self.bits, 5, value) }
    }

    /// Replaces `rx_frame_cound_threshold_enable` in place.
    pub fn write_rx_frame_cound_threshold_enable(&mut self, value: bool)
        ensures
            *final(self) == old(self).with_rx_frame_cound_threshold_enable(value),
    {
        self.bits = set_flag(self.bits, 5, value);
    }

    /// Drop each frame from the queue once it was read.
    #[verifier::allow_in_spec]
    pub fn read_auto_dequeue_rxq_frame_enable(&self) -> bool
        returns
            flag(self.bits, 4),
    {
        get_flag(self.bits, 4)
    }

    /// The register with `auto_dequeue_rxq_frame_enable` replaced.
    #[verifier::allow_in_spec]
    pub fn with_auto_dequeue_rxq_frame_enable(self, value: bool) -> Self
        returns
            (RXQCR { bits: with_flag(self.bits, 4, value) }),
    {
        RXQCR { bits: set_flag(self.bits, 4, value) }
    }

    /// Replaces `auto_dequeue_rxq_frame_enable` in place.
    pub fn write_auto_dequeue_rxq_frame_enable(&mut self, value: bool)
        ensures
            *final(self) == old(self).with_auto_dequeue_rxq_frame_enable(value),
    {
        self.bits = set_flag(self.bits, 4, value);
    }

    /// Open the queue for a bulk transfer.
    #[verifier::allow_in_spec]
    pub fn read_start_dma_access(&self) -> bool
        returns
            flag(self.bits, 3),
    {
        get_flag(self.bits, 3)
    }

    /// The register with `start_dma_access` replaced.
    #[verifier::allow_in_spec]
    pub fn with_start_dma_access(self, value: bool) -> Self
        returns
            (RXQCR { bits: with_flag(self.bits, 3, value) }),
    {
        RXQCR { bits: set_flag(self.bits, 3, value) }
    }

    /// Replaces `start_dma_access` in place.
    pub fn write_start_dma_access(&mut self, value: bool)
        ensures
            *final(self) == old(self).with_start_dma_access(value),
    {
        self.bits = set_flag(self.bits, 3, value);
    }

    /// Drop the frame at the head of the queue.
    #[verifier::allow_in_spec]
    pub fn read_release_rx_error_frame(&self) -> bool
        returns
            flag(self.bits, 0),
    {
        get_flag(self.bits, 0)
    }

    /// The register with `release_rx_error_frame` replaced.
    #[verifier::allow_in_spec]
    pub fn with_release_rx_error_frame(self, value: bool) -> Self
        returns
            (RXQCR { bits: with_flag(self.bits, 0, value) }),
    {
        RXQCR { bits: set_flag(self.bits, 0, value) }
    }

    /// Replaces `release_rx_error_frame` in place.
    pub fn write_release_rx_error_frame(&mut self, value: bool)
        ensures
            *final(self) == old(self).with_release_rx_error_frame(value),
    {
        self.bits = set_flag(self.bits, 0, value);
    }
}

/// Receive frame data pointer register.
#[derive(Clone, Copy, Debug, PartialEq, Eq, Structural)]
pub struct RXFDPR {
    /// The register word; bit 15 is the most significant.
    pub bits: u16,
}

impl RXFDPR {
    /// The register's address on the chip.
    pub const ADDRESS: u8 = 0x86;

    /// The register with every bit clear.
    #[verifier::allow_in_spec]
    pub fn zeroed() -> Self
        returns
            (RXFDPR { bits: 0 }),
    {
        RXFDPR { bits: 0 }
    }

    /// The register from its two bytes in bus order, low byte first.
    pub fn from_bytes(data: [u8; 2]) -> (r: Self)
        ensures
            r.bits == word_of(data[0], data[1]),
    {
        RXFDPR { bits: join(data[0], data[1]) }
    }

    /// The register's two bytes in bus order, low byte first.
    pub fn data(&self) -> (d: [u8; 2])
        ensures
            d[0] == low_byte(self.bits),
            d[1] == high_byte(self.bits),
    {
        let (lo, hi) = split(self.bits);
        [lo, hi]
    }

    /// Advance the pointer after each access.
    #[verifier::allow_in_spec]
    pub fn read_rx_frame_pointer_auto_increment(&self) -> bool
        returns
            flag(self.bits, 14),
    {
        get_flag(self.bits, 14)
    }

    /// The register with `rx_frame_pointer_auto_increment` replaced.
    #[verifier::allow_in_spec]
    pub fn with_rx_frame_pointer_auto_increment(self, value: bool) -> Self
        returns
            (RXFDPR { bits: with_flag(self.bits, 14, value) }),
    {
        RXFDPR { bits: set_flag(self.bits, 14, value) }
    }

    /// Replaces `rx_frame_pointer_auto_increment` in place.
    pub fn write_rx_frame_pointer_auto_increment(&mut self, value: bool)
        ensures
            *final(self) == old(self).with_rx_frame_pointer_auto_increment(value),
    {
        self.bits = set_flag(self.bits, 14, value);
    }

    /// The read position in the receive queue.
    #[verifier::allow_in_spec]
    pub fn read_rx_frame_pointer(&self) -> u16
        returns
            field(self.bits, 0, 11),
    {
        get_field(self.bits, 0, 11)
    }

    /// The register with `rx_frame_pointer` replaced.
    #[verifier::allow_in_spec]
    pub fn with_rx_frame_pointer(self, value: u16) -> Self
        returns
            (RXFDPR { bits: with_field(self.bits, 0, 11, value) }),
    {
        RXFDPR { bits: set_field(self.bits, 0, 11, value) }
    }

    /// Replaces `rx_frame_pointer` in place.
    pub fn write_rx_frame_pointer(&mut self, value: u16)
        ensures
            *final(self) == old(self).with_rx_frame_pointer(value),
    {
        self.bits = set_field(self.bits, 0, 11, value);
    }
}

/// Receive duration timer threshold register.
#[derive(Clone, Copy, Debug, PartialEq, Eq, Structural)]
pub struct RXDTTR {
    /// The register word; bit 15 is the most significant.
    pub bits: u16,
}

impl RXDTTR {
    /// The register's address on the chip.
    pub const ADDRESS: u8 = 0x8C;

    /// The register with every bit clear.
    #[verifier::allow_in_spec]
    pub fn zeroed() -> Self
        returns
            (RXDTTR { bits: 0 }),
    {
        RXDTTR { bits: 0 }
    }

    /// The register from its two bytes in bus order, low byte first.
    pub fn from_bytes(data: [u8; 2]) -> (r: Self)
        ensures
            r.bits == word_of(data[0], data[1]),
    {
        RXDTTR { bits: join(data[0], data[1]) }
    }

    /// The register's two bytes in bus order, low byte first.
    pub fn data(&self) -> (d: [u8; 2])
        ensures
            d[0] == low_byte(self.bits),
            d[1] == high_byte(self.bits),
    {
        let (lo, hi) = split(self.bits);
        [lo, hi]
    }

    /// How long, in microseconds, the first buffered frame may wait for the
    /// interrupt.
    #[verifier::allow_in_spec]
    pub fn read_receive_duration_timer_threshold(&self) -> u16
        returns
            field(self.bits, 0, 16),
    {
        get_field(self.bits, 0, 16)
    }

    /// The register with `receive_duration_timer_threshold` replaced.
    #[verifier::allow_in_spec]
    pub fn with_receive_duration_timer_threshold(self, value: u16) -> Self
        returns
            (RXDTTR { bits: with_field(self.bits, 0, 16, value) }),
    {
        RXDTTR { bits: set_field(self.bits, 0, 16, value) }
    }

    /// Replaces `receive_duration_timer_threshold` in place.
    pub fn write_receive_duration_timer_threshold(&mut self, value: u16)
        ensures
            *final(self) == old(self).with_receive_duration_timer_threshold(value),
    {
        self.bits = set_field(self.bits, 0, 16, value);
    }
}

/// Receive data byte count threshold register.
#[derive(Clone, Copy, Debug, PartialEq, Eq, Structural)]
pub struct RXDBCTR {
    /// The register word; bit 15 is the most significant.
    pub bits: u16,
}

impl RXDBCTR {
    /// The register's address on the chip.
    pub const ADDRESS: u8 = 0x8E;

    /// The register with every bit clear.
    #[verifier::allow_in_spec]
    pub fn zeroed() -> Self
        returns
            (RXDBCTR { bits: 0 }),
    {
        RXDBCTR { bits: 0 }
    }

    /// The register from its two bytes in bus order, low byte first.
    pub fn from_bytes(data: [u8; 2]) -> (r: Self)
        ensures
            r.bits == word_of(data[0], data[1]),
    {
        RXDBCTR { bits: join(data[0], data[1]) }
    }

    /// The register's two bytes in bus order, low byte first.
    pub fn data(&self) -> (d: [u8; 2])
        ensures
            d[0] == low_byte(self.bits),
            d[1] == high_byte(self.bits),
    {
        let (lo, hi) = split(self.bits);
        [lo, hi]
    }

    /// How many buffered bytes raise the interrupt.
    #[verifier::allow_in_spec]
    pub fn read_receive_data_byte_count_threshold(&self) -> u16
        returns
            field(self.bits, 0, 16),
    {
        get_field(self.bits, 0, 16)
    }

    /// The register with `receive_data_byte_count_threshold` replaced.
    #[verifier::allow_in_spec]
    pub fn with_receive_data_byte_count_threshold(self, value: u16) -> Self
        returns
            (RXDBCTR { bits: with_field(self.bits, 0, 16, value) }),
    {
        RXDBCTR { bits: set_field(self.bits, 0, 16, value) }
    }

    /// Replaces `receive_data_byte_count_threshold` in place.
    pub fn write_receive_data_byte_count_threshold(&mut self, value: u16)
        ensures
            *final(self) == old(self).with_receive_data_byte_count_threshold(value),
    {
        self.bits = set_field(self.bits, 0, 16, value);
    }
}

/// Receive frame count and threshold register.
#[derive(Clone, Copy, Debug, PartialEq, Eq, Structural)]
pub struct RXFCTR {
    /// The register word; bit 15 is the most significant.
    pub bits: u16,
}

impl RXFCTR {
    /// The register's address on the chip.
    pub const ADDRESS: u8 = 0x9C;

    /// The register with every bit clear.
    #[verifier::allow_in_spec]
    pub fn zeroed() -> Self
        returns
            (RXFCTR { bits: 0 }),
    {
        RXFCTR { bits: 0 }
    }

    /// The register from its two bytes in bus order, low byte first.
    pub fn from_bytes(data: [u8; 2]) -> (r: Self)
        ensures
            r.bits == word_of(data[0], data[1]),
    {
        RXFCTR { bits: join(data[0], data[1]) }
    }

    /// The register's two bytes in bus order, low byte first.
    pub fn data(&self) -> (d: [u8; 2])
        ensures
            d[0] == low_byte(self.bits),
            d[1] == high_byte(self.bits),
    {
        let (lo, hi) = split(self.bits);
        [lo, hi]
    }

    /// How many frames wait in the receive queue.
    #[verifier::allow_in_spec]
    pub fn read_rx_frame_count(&self) -> u8
        returns
            small_field(self.bits, 8, 8),
    {
        get_small_field(self.bits, 8, 8)
    }

    /// The register with `rx_frame_count` replaced.
    #[verifier::allow_in_spec]
    pub fn with_rx_frame_count(self, value: u8) -> Self
        returns
            (RXFCTR { bits: with_field(self.bits, 8, 8, value as u16) }),
    {
        RXFCTR { bits: set_field(self.bits, 8, 8, value as u16) }
    }

    /// Replaces `rx_frame_count` in place.
    pub fn write_rx_frame_count(&mut self, value: u8)
        ensures
            *final(self) == old(self).with_rx_frame_count(value),
    {
        self.bits = set_field(self.bits, 8, 8, value as u16);
    }

    /// How many buffered frames raise the interrupt.
    #[verifier::allow_in_spec]
    pub fn read_recieve_frame_count_threshold(&self) -> u8
        returns
            small_field(self.bits, 0, 8),
    {
        get_small_field(self.bits, 0, 8)
    }

    /// The register with `recieve_frame_count_threshold` replaced.
    #[verifier::allow_in_spec]
    pub fn with_recieve_frame_count_threshold(self, value: u8) -> Self
        returns
            (RXFCTR { bits: with_field(self.bits, 0, 8, value as u16) }),
    {
        RXFCTR { bits: set_field(self.bits, 0, 8, value as u16) }
    }

    /// Replaces `recieve_frame_count_threshold` in place.
    pub fn write_recieve_frame_count_threshold(&mut self, value: u8)
        ensures
            *final(self) == old(self).with_recieve_frame_count_threshold(value),
    {
        self.bits = set_field(self.bits, 0, 8, value as u16);
    }
}

} // verus!
