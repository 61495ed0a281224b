//! Registers of the transmit path.

use crate::bits::{
    field, flag, get_field, get_flag, high_byte, join, low_byte, set_field, set_flag, split,
    with_field, with_flag, word_of,
};
use vstd::prelude::*;

verus! {

/// Transmit control register.
#[derive(Clone, Copy, Debug, PartialEq, Eq, Structural)]
pub struct TXCR {
    /// The register word; bit 15 is the most significant.
    pub bits: u16,
}

impl TXCR {
    /// The register's address on the chip.
    pub const ADDRESS: u8 = 0x70;

    /// The register with every bit clear.
    #[verifier::allow_in_spec]
    pub fn zeroed() -> Self
        returns
            (TXCR { bits: 0 }),
    {
        TXCR { bits: 0 }
    }

    /// The register from its two bytes in bus order, low byte first.
    pub fn from_bytes(data: [u8; 2]) -> (r: Self)
        ensures
            r.bits == word_of(data[0], data[1]),
    {
        TXCR { bits: join(data[0], data[1]) }
    }

    /// The register's two bytes in bus order, low byte first.
    pub fn data(&self) -> (d: [u8; 2])
        ensures
            d[0] == low_byte(self.bits),
            d[1] == high_byte(self.bits),
    {
        let (lo, hi) = split(self.bits);
        [lo, hi]
    }

    /// Generate the ICMP checksum of outgoing frames.
    #[verifier::allow_in_spec]
    pub fn read_checksum_gen_icmp(&self) -> bool
        returns
            flag(self.bits, 8),
    {
        get_flag(self.bits, 8)
    }

    /// The register with `checksum_gen_icmp` replaced.
    #[verifier::allow_in_spec]
    pub fn with_checksum_gen_icmp(self, value: bool) -> Self
        returns
            (TXCR { bits: with_flag(self.bits, 8, value) }),
    {
        TXCR { bits: set_flag(self.bits, 8, value) }
    }

    /// Replaces `checksum_gen_icmp` in place.
    pub fn write_checksum_gen_icmp(&mut self, value: bool)
        ensures
            *final(self) == old(self).with_checksum_gen_icmp(value),
    {
        self.bits = set_flag(self.bits, 8, value);
    }

    /// Generate the TCP checksum of outgoing frames.
    #[verifier::allow_in_spec]
    pub fn read_checksum_gen_tcp(&self) -> bool
        returns
            flag(self.bits, 6),
    {
        get_flag(self.bits, 6)
    }

    /// The register with `checksum_gen_tcp` replaced.
    #[verifier::allow_in_spec]
    pub fn with_checksum_gen_tcp(self, value: bool) -> Self
        returns
            (TXCR { bits: with_flag(self.bits, 6, value) }),
    {
        TXCR { bits: set_flag(self.bits, 6, value) }
    }

    /// Replaces `checksum_gen_tcp` in place.
    pub fn write_checksum_gen_tcp(&mut self, value: bool)
        ensures
            *final(self) == old(self).with_checksum_gen_tcp(value),
    {
        self.bits = set_flag(self.bits, 6, value);
    }

    /// Generate the IP header checksum of outgoing frames.
    #[verifier::allow_in_spec]
    pub fn read_checksum_gen_ip(&self) -> bool
        returns
            flag(self.bits, 5),
    {
        get_flag(self.bits, 5)
    }

    /// The register with `checksum_gen_ip` replaced.
    #[verifier::allow_in_spec]
    pub fn with_checksum_gen_ip(self, value: bool) -> Self
        returns
            (TXCR { bits: with_flag(self.bits, 5, value) }),
    {
        TXCR { bits: set_flag(self.bits, 5, value) }
    }

    /// Replaces `checksum_gen_ip` in place.
    pub fn write_checksum_gen_ip(&mut self, value: bool)
        ensures
            *final(self) == old(self).with_checksum_gen_ip(value),
    {
        self.bits = set_flag(self.bits, 5, value);
    }

    /// Empty the transmit queue.
    #[verifier::allow_in_spec]
    pub fn read_flush_transmit_queue(&self) -> bool
        returns
            flag(self.bits, 4),
    {
        get_flag(self.bits, 4)
    }

    /// The register with `flush_transmit_queue` replaced.
    #[verifier::allow_in_spec]
    pub fn with_flush_transmit_queue(self, value: bool) -> Self
        returns
            (TXCR { bits: with_flag(self.bits, 4, value) }),
    {
        TXCR { bits: set_flag(self.bits, 4, value) }
    }

    /// Replaces `flush_transmit_queue` in place.
    pub fn write_flush_transmit_queue(&mut self, value: bool)
        ensures
            *final(self) == old(self).with_flush_transmit_queue(value),
    {
        self.bits = set_flag(self.bits, 4, value);
    }

    /// Send pause frames and back pressure.
    #[verifier::allow_in_spec]
    pub fn read_flow_control_enable(&self) -> bool
        returns
            flag(self.bits, 3),
    {
        get_flag(self.bits, 3)
    }

    /// The register with `flow_control_enable` replaced.
    #[verifier::allow_in_spec]
    pub fn with_flow_control_enable(self, value: bool) -> Self
        returns
            (TXCR { bits: with_flag(self.bits, 3, value) }),
    {
        TXCR { bits: set_flag(self.bits, 3, value) }
    }

    /// Replaces `flow_control_enable` in place.
    pub fn write_flow_control_enable(&mut self, value: bool)
        ensures
            *final(self) == old(self).with_flow_control_enable(value),
    {
        self.bits = set_flag(self.bits, 3, value);
    }

    /// Pad short frames to the minimum length.
    #[verifier::allow_in_spec]
    pub fn read_padding_enable(&self) -> bool
        returns
            flag(self.bits, 2),
    {
        get_flag(self.bits, 2)
    }

    /// The register with `padding_enable` replaced.
    #[verifier::allow_in_spec]
    pub fn with_padding_enable(self, value: bool) -> Self
        returns
            (TXCR { bits: with_flag(self.bits, 2, value) }),
    {
        TXCR { bits: set_flag(self.bits, 2, value) }
    }

    /// Replaces `padding_enable` in place.
    pub fn write_padding_enable(&mut self, value: bool)
        ensures
            *final(self) == old(self).with_padding_enable(value),
    {
        self.bits = set_flag(self.bits, 2, value);
    }

    /// Append the frame check sequence.
    #[verifier::allow_in_spec]
    pub fn read_crc_enable(&self) -> bool
        returns
            flag(self.bits, 1),
    {
        get_flag(self.bits, 1)
    }

    /// The register with `crc_enable` replaced.
    #[verifier::allow_in_spec]
    pub fn with_crc_enable(self, value: bool) -> Self
        returns
            (TXCR { bits: with_flag(self.bits, 1, value) }),
    {
        TXCR { bits: set_flag(self.bits, 1, value) }
    }

    /// Replaces `crc_enable` in place.
    pub fn write_crc_enable(&mut self, value: bool)
        ensures
            *final(self) == old(self).with_crc_enable(value),
    {
        self.bits = set_flag(self.bits, 1, value);
    }

    /// Run the transmitter.
    #[verifier::allow_in_spec]
    pub fn read_transmit_enable(&self) -> bool
        returns
            flag(self.bits, 0),
    {
        get_flag(self.bits, 0)
    }

    /// The register with `transmit_enable` replaced.
    #[verifier::allow_in_spec]
    pub fn with_transmit_enable(self, value: bool) -> Self
        returns
            (TXCR { bits: with_flag(self.bits, 0, value) }),
    {
        TXCR { bits: set_flag(self.bits, 0, value) }
    }

    /// Replaces `transmit_enable` in place.
    pub fn write_transmit_enable(&mut self, value: bool)
        ensures
            *final(self) == old(self).with_transmit_enable(value),
    {
        self.bits = set_flag(self.bits, 0, value);
    }
}

/// Transmit memory information register.
#[derive(Clone, Copy, Debug, PartialEq, Eq, Structural)]
pub struct TXMIR {
    /// The register word; bit 15 is the most significant.
    pub bits: u16,
}

impl TXMIR {
    /// The register's address on the chip.
    pub const ADDRESS: u8 = 0x78;

    /// The register from its two bytes in bus order, low byte first.
    pub fn from_bytes(data: [u8; 2]) -> (r: Self)
        ensures
            r.bits == word_of(data[0], data[1]),
    {
        TXMIR { bits: join(data[0], data[1]) }
    }

    /// The register's two bytes in bus order, low byte first.
    pub fn data(&self) -> (d: [u8; 2])
        ensures
            d[0] == low_byte(self.bits),
            d[1] == high_byte(self.bits),
    {
        let (lo, hi) = split(self.bits);
        [lo, hi]
    }

    /// The free bytes of transmit memory.
    #[verifier::allow_in_spec]
    pub fn read_txma_memory_available(&self) -> u16
        returns
            field(self.bits, 0, 13),
    {
        get_field(self.bits, 0, 13)
    }
}

/// Transmit queue command register.
#[derive(Clone, Copy, Debug, PartialEq, Eq, Structural)]
pub struct TXQCR {
    /// The register word; bit 15 is the most significant.
    pub bits: u16,
}

impl TXQCR {
    /// The register's address on the chip.
    pub const ADDRESS: u8 = 0x80;

    /// The register with every bit clear.
    #[verifier::allow_in_spec]
    pub fn zeroed() -> Self
        returns
            (TXQCR { bits: 0 }),
    {
        TXQCR { bits: 0 }
    }

    /// The register from its two bytes in bus order, low byte first.
    pub fn from_bytes(data: [u8; 2]) -> (r: Self)
        ensures
            r.bits == word_of(data[0], data[1]),
    {
        TXQCR { bits: join(data[0], data[1]) }
    }

    /// The register's two bytes in bus order, low byte first.
    pub fn data(&self) -> (d: [u8; 2])
        ensures
            d[0] == low_byte(self.bits),
            d[1] == high_byte(self.bits),
    {
        let (lo, hi) = split(self.bits);
        [lo, hi]
    }

    /// Send each frame as soon as it is written.
    #[verifier::allow_in_spec]
    pub fn read_auto_enqueue_txq_frame_enable(&self) -> bool
        returns
            flag(self.bits, 2),
    {
        get_flag(self.bits, 2)
    }

    /// The register with `auto_enqueue_txq_frame_enable` replaced.
    #[verifier::allow_in_spec]
    pub fn with_auto_enqueue_txq_frame_enable(self, value: bool) -> Self
        returns
            (TXQCR { bits: with_flag(self.bits, 2, value) }),
    {
        TXQCR { bits: set_flag(self.bits, 2, value) }
    }

    /// Replaces `auto_enqueue_txq_frame_enable` in place.
    pub fn write_auto_enqueue_txq_frame_enable(&mut self, value: bool)
        ensures
            *final(self) == old(self).with_auto_enqueue_txq_frame_enable(value),
    {
        self.bits = set_flag(self.bits, 2, value);
    }

    /// Raise an interrupt once the announced frame size fits.
    #[verifier::allow_in_spec]
    pub fn read_txq_memory_available_monitor(&self) -> bool
        returns
            flag(self.bits, 1),
    {
        get_flag(self.bits, 1)
    }

    /// The register with `txq_memory_available_monitor` replaced.
    #[verifier::allow_in_spec]
    pub fn with_txq_memory_available_monitor(self, value: bool) -> Self
        returns
            (TXQCR { bits: with_flag(self.bits, 1, value) }),
    {
        TXQCR { bits: set_flag(self.bits, 1, value) }
    }

    /// Replaces `txq_memory_available_monitor` in place.
    pub fn write_txq_memory_available_monitor(&mut self, value: bool)
        ensures
            *final(self) == old(self).with_txq_memory_available_monitor(value),
    {
        self.bits = set_flag(self.bits, 1, value);
    }

    /// Send the frame that was written last.
    #[verifier::allow_in_spec]
    pub fn read_manual_enqueue_txq_frame_enable(&self) -> bool
        returns
            flag(self.bits, 0),
    {
        get_flag(self.bits, 0)
    }

    /// The register with `manual_enqueue_txq_frame_enable` replaced.
    #[verifier::allow_in_spec]
    pub fn with_manual_enqueue_txq_frame_enable(self, value: bool) -> Self
        returns
            (TXQCR { bits: with_flag(self.bits, 0, value) }),
    {
        TXQCR { bits: set_flag(self.bits, 0, value) }
    }

    /// Replaces `manual_enqueue_txq_frame_enable` in place.
    pub fn write_manual_enqueue_txq_frame_enable(&mut self, value: bool)
        ensures
            *final(self) == old(self).with_manual_enqueue_txq_frame_enable(value),
    {
        self.bits = set_flag(self.bits, 0, value);
    }
}

/// Transmit frame data pointer register.
#[derive(Clone, Copy, Debug, PartialEq, Eq, Structural)]
pub struct TXFDPR {
    /// The register word; bit 15 is the most significant.
    pub bits: u16,
}

impl TXFDPR {
    /// The register's address on the chip.
    pub const ADDRESS: u8 = 0x84;

    /// The register with every bit clear.
    #[verifier::allow_in_spec]
    pub fn zeroed() -> Self
        returns
            (TXFDPR { bits: 0 }),
    {
        TXFDPR { bits: 0 }
    }

    /// The register from its two bytes in bus order, low byte first.
    pub fn from_bytes(data: [u8; 2]) -> (r: Self)
        ensures
            r.bits == word_of(data[0], data[1]),
    {
        TXFDPR { bits: join(data[0], data[1]) }
    }

    /// The register's two bytes in bus order, low byte first.
    pub fn data(&self) -> (d: [u8; 2])
        ensures
            d[0] == low_byte(self.bits),
            d[1] == high_byte(self.bits),
    {
        let (lo, hi) = split(self.bits);
        [lo, hi]
    }

    /// Advance the pointer after each access.
    #[verifier::allow_in_spec]
    pub fn read_tx_frame_data_pointer_auto_increment(&self) -> bool
        returns
            flag(self.bits, 14),
    {
        get_flag(self.bits, 14)
    }

    /// The register with `tx_frame_data_pointer_auto_increment` replaced.
    #[verifier::allow_in_spec]
    pub fn with_tx_frame_data_pointer_auto_increment(self, value: bool) -> Self
        returns
            (TXFDPR { bits: with_flag(self.bits, 14, value) }),
    {
        TXFDPR { bits: set_flag(self.bits, 14, value) }
    }

    /// Replaces `tx_frame_data_pointer_auto_increment` in place.
    pub fn write_tx_frame_data_pointer_auto_increment(&mut self, value: bool)
        ensures
            *final(self) == old(self).with_tx_frame_data_pointer_auto_increment(value),
    {
        self.bits = set_flag(self.bits, 14, value);
    }

    /// The write position in the transmit queue.
    #[verifier::allow_in_spec]
    pub fn read_tx_frame_pointer(&self) -> u16
        returns
            field(self.bits, 0, 11),
    {
        get_field(self.bits, 0, 11)
    }

    /// The register with `tx_frame_pointer` replaced.
    #[verifier::allow_in_spec]
    pub fn with_tx_frame_pointer(self, value: u16) -> Self
        returns
            (TXFDPR { bits: with_field(self.bits, 0, 11, value) }),
    {
        TXFDPR { bits: set_field(self.bits, 0, 11, value) }
    }

    /// Replaces `tx_frame_pointer` in place.
    pub fn write_tx_frame_pointer(&mut self, value: u16)
        ensures
            *final(self) == old(self).with_tx_frame_pointer(value),
    {
        self.bits = set_field(self.bits, 0, 11, value);
    }
}

/// Transmit next total frame size register.
#[derive(Clone, Copy, Debug, PartialEq, Eq, Structural)]
pub struct TXNTFSR {
    /// The register word; bit 15 is the most significant.
    pub bits: u16,
}

impl TXNTFSR {
    /// The register's address on the chip.
    pub const ADDRESS: u8 = 0x9E;

    /// The register with every bit clear.
    #[verifier::allow_in_spec]
    pub fn zeroed() -> Self
        returns
            (TXNTFSR { bits: 0 }),
    {
        TXNTFSR { bits: 0 }
    }

    /// The register from its two bytes in bus order, low byte first.
    pub fn from_bytes(data: [u8; 2]) -> (r: Self)
        ensures
            r.bits == word_of(data[0], data[1]),
    {
        TXNTFSR { bits: join(data[0], data[1]) }
    }

    /// The register's two bytes in bus order, low byte first.
    pub fn data(&self) -> (d: [u8; 2])
        ensures
            d[0] == low_byte(self.bits),
            d[1] == high_byte(self.bits),
    {
        let (lo, hi) = split(self.bits);
        [lo, hi]
    }

    /// The bytes that the next frame will take in transmit memory.
    #[verifier::allow_in_spec]
    pub fn read_tx_next_total_frame_size(&self) -> u16
        returns
            field(self.bits, 0, 16),
    {
        get_field(self.bits, 0, 16)
    }

    /// The register with `tx_next_total_frame_size` replaced.
    #[verifier::allow_in_spec]
    pub fn with_tx_next_total_frame_size(self, value: u16) -> Self
        returns
            (TXNTFSR { bits: with_field(self.bits, 0, 16, value) }),
    {
        TXNTFSR { bits: set_field(self.bits, 0, 16, value) }
    }

    /// Replaces `tx_next_total_frame_size` in place.
    pub fn write_tx_next_total_frame_size(&mut self, value: u16)
        ensures
            *final(self) == old(self).with_tx_next_total_frame_size(value),
    {
        self.bits = set_field(self.bits, 0, 16, value);
    }
}

} // verus!
