//! The interrupt enable and status registers.

use crate::bits::{
    flag, get_flag, high_byte, join, low_byte, set_flag, split, with_flag, word_of,
};
use vstd::prelude::*;

verus! {

/// Interrupt enable register.
#[derive(Clone, Copy, Debug, PartialEq, Eq, Structural)]
pub struct IER {
    /// The register word; bit 15 is the most significant.
    pub bits: u16,
}

impl IER {
    /// The register's address on the chip.
    pub const ADDRESS: u8 = 0x90;

    /// The register with every bit clear.
    #[verifier::allow_in_spec]
    pub fn zeroed() -> Self
        returns
            (IER { bits: 0 }),
    {
        IER { bits: 0 }
    }

    /// The register from its two bytes in bus order, low byte first.
    pub fn from_bytes(data: [u8; 2]) -> (r: Self)
        ensures
            r.bits == word_of(data[0], data[1]),
    {
        IER { bits: join(data[0], data[1]) }
    }

    /// The register's two bytes in bus order, low byte first.
    pub fn data(&self) -> (d: [u8; 2])
        ensures
            d[0] == low_byte(self.bits),
            d[1] == high_byte(self.bits),
    {
        let (lo, hi) = split(self.bits);
        [lo, hi]
    }

    /// Interrupt when the link came up or went down.
    #[verifier::allow_in_spec]
    pub fn read_link_change_enable(&self) -> bool
        returns
            flag(self.bits, 15),
    {
        get_flag(self.bits, 15)
    }

    /// The register with `link_change_enable` replaced.
    #[verifier::allow_in_spec]
    pub fn with_link_change_enable(self, value: bool) -> Self
        returns
            (IER { bits: with_flag(self.bits, 15, value) }),
    {
        IER { bits: set_flag(self.bits, 15, value) }
    }

    /// Replaces `link_change_enable` in place.
    pub fn write_link_change_enable(&mut self, value: bool)
        ensures
            *final(self) == old(self).with_link_change_enable(value),
    {
        self.bits = set_flag(self.bits, 15, value);
    }

    /// Interrupt when a frame was sent.
    #[verifier::allow_in_spec]
    pub fn read_transmit_enable(&self) -> bool
        returns
            flag(self.bits, 14),
    {
        get_flag(self.bits, 14)
    }

    /// The register with `transmit_enable` replaced.
    #[verifier::allow_in_spec]
    pub fn with_transmit_enable(self, value: bool) -> Self
        returns
            (IER { bits: with_flag(self.bits, 14, value) }),
    {
        IER { bits: set_flag(self.bits, 14, value) }
    }

    /// Replaces `transmit_enable` in place.
    pub fn write_transmit_enable(&mut self, value: bool)
        ensures
            *final(self) == old(self).with_transmit_enable(value),
    {
        self.bits = set_flag(self.bits, 14, value);
    }

    /// Interrupt when a frame was received.
    #[verifier::allow_in_spec]
    pub fn read_receive_enable(&self) -> bool
        returns
            flag(self.bits, 13),
    {
        get_flag(self.bits, 13)
    }

    /// The register with `receive_enable` replaced.
    #[verifier::allow_in_spec]
    pub fn with_receive_enable(self, value: bool) -> Self
        returns
            (IER { bits: with_flag(self.bits, 13, value) }),
    {
        IER { bits: set_flag(self.bits, 13, value) }
    }

    /// Replaces `receive_enable` in place.
    pub fn write_receive_enable(&mut self, value: bool)
        ensures
            *final(self) == old(self).with_receive_enable(value),
    {
        self.bits = set_flag(self.bits, 13, value);
    }

    /// Interrupt when the receive queue overflowed.
    #[verifier::allow_in_spec]
    pub fn read_receive_overrun_enable(&self) -> bool
        returns
            flag(self.bits, 11),
    {
        get_flag(self.bits, 11)
    }

    /// The register with `receive_overrun_enable` replaced.
    #[verifier::allow_in_spec]
    pub fn with_receive_overrun_enable(self, value: bool) -> Self
        returns
            (IER { bits: with_flag(self.bits, 11, value) }),
    {
        IER { bits: set_flag(self.bits, 11, value) }
    }

    /// Replaces `receive_overrun_enable` in place.
    pub fn write_receive_overrun_enable(&mut self, value: bool)
        ensures
            *final(self) == old(self).with_receive_overrun_enable(value),
    {
        self.bits = set_flag(self.bits, 11, value);
    }

    /// Interrupt when the transmitter stopped.
    #[verifier::allow_in_spec]
    pub fn read_transmit_process_stopped_enable(&self) -> bool
        returns
            flag(self.bits, 9),
    {
        get_flag(self.bits, 9)
    }

    /// The register with `transmit_process_stopped_enable` replaced.
    #[verifier::allow_in_spec]
    pub fn with_transmit_process_stopped_enable(self, value: bool) -> Self
        returns
            (IER { bits: with_flag(self.bits, 9, value) }),
    {
        IER { bits: set_flag(self.bits, 9, value) }
    }

    /// Replaces `transmit_process_stopped_enable` in place.
    pub fn write_transmit_process_stopped_enable(&mut self, value: bool)
        ensures
            *final(self) == old(self).with_transmit_process_stopped_enable(value),
    {
        self.bits = set_flag(self.bits, 9, value);
    }

    /// Interrupt when the receiver stopped.
    #[verifier::allow_in_spec]
    pub fn read_receive_process_stopped_enable(&self) -> bool
        returns
            flag(self.bits, 8),
    {
        get_flag(self.bits, 8)
    }

    /// The register with `receive_process_stopped_enable` replaced.
    #[verifier::allow_in_spec]
    pub fn with_receive_process_stopped_enable(self, value: bool) -> Self
        returns
            (IER { bits: with_flag(self.bits, 8, value) }),
    {
        IER { bits: set_flag(self.bits, 8, value) }
    }

    /// Replaces `receive_process_stopped_enable` in place.
    pub fn write_receive_process_stopped_enable(&mut self, value: bool)
        ensures
            *final(self) == old(self).with_receive_process_stopped_enable(value),
    {
        self.bits = set_flag(self.bits, 8, value);
    }

    /// Interrupt when the announced frame size fits in transmit memory.
    #[verifier::allow_in_spec]
    pub fn read_transmit_space_available_enable(&self) -> bool
        returns
            flag(self.bits, 6),
    {
        get_flag(self.bits, 6)
    }

    /// The register with `transmit_space_available_enable` replaced.
    #[verifier::allow_in_spec]
    pub fn with_transmit_space_available_enable(self, value: bool) -> Self
        returns
            (IER { bits: with_flag(self.bits, 6, value) }),
    {
        IER { bits: set_flag(self.bits, 6, value) }
    }

    /// Replaces `transmit_space_available_enable` in place.
    pub fn write_transmit_space_available_enable(&mut self, value: bool)
        ensures
            *final(self) == old(self).with_transmit_space_available_enable(value),
    {
        self.bits = set_flag(self.bits, 6, value);
    }

    /// Interrupt when a wake-up frame arrived.
    #[verifier::allow_in_spec]
    pub fn read_receive_wakeup_frame_detect_enable(&self) -> bool
        returns
            flag(self.bits, 5),
    {
        get_flag(self.bits, 5)
    }

    /// The register with `receive_wakeup_frame_detect_enable` replaced.
    #[verifier::allow_in_spec]
    pub fn with_receive_wakeup_frame_detect_enable(self, value: bool) -> Self
        returns
            (IER { bits: with_flag(self.bits, 5, value) }),
    {
        IER { bits: set_flag(self.bits, 5, value) }
    }

    /// Replaces `receive_wakeup_frame_detect_enable` in place.
    pub fn write_receive_wakeup_frame_detect_enable(&mut self, value: bool)
        ensures
            *final(self) == old(self).with_receive_wakeup_frame_detect_enable(value),
    {
        self.bits = set_flag(self.bits, 5, value);
    }

    /// Interrupt when a magic packet arrived.
    #[verifier::allow_in_spec]
    pub fn read_receive_magic_packet_detect_enable(&self) -> bool
        returns
            flag(self.bits, 4),
    {
        get_flag(self.bits, 4)
    }

    /// The register with `receive_magic_packet_detect_enable` replaced.
    #[verifier::allow_in_spec]
    pub fn with_receive_magic_packet_detect_enable(self, value: bool) -> Self
        returns
            (IER { bits: with_flag(self.bits, 4, value) }),
    {
        IER { bits: set_flag(self.bits, 4, value) }
    }

    /// Replaces `receive_magic_packet_detect_enable` in place.
    pub fn write_receive_magic_packet_detect_enable(&mut self, value: bool)
        ensures
            *final(self) == old(self).with_receive_magic_packet_detect_enable(value),
    {
        self.bits = set_flag(self.bits, 4, value);
    }

    /// Interrupt when a link-up event woke the chip.
    #[verifier::allow_in_spec]
    pub fn read_linkup_detect_enable(&self) -> bool
        returns
            flag(self.bits, 3),
    {
        get_flag(self.bits, 3)
    }

    /// The register with `linkup_detect_enable` replaced.
    #[verifier::allow_in_spec]
    pub fn with_linkup_detect_enable(self, value: bool) -> Self
        returns
            (IER { bits: with_flag(self.bits, 3, value) }),
    {
        IER { bits: set_flag(self.bits, 3, value) }
    }

    /// Replaces `linkup_detect_enable` in place.
    pub fn write_linkup_detect_enable(&mut self, value: bool)
        ensures
            *final(self) == old(self).with_linkup_detect_enable(value),
    {
        self.bits = set_flag(self.bits, 3, value);
    }

    /// Interrupt when energy on the line woke the chip.
    #[verifier::allow_in_spec]
    pub fn read_energy_detect_enable(&self) -> bool
        returns
            flag(self.bits, 2),
    {
        get_flag(self.bits, 2)
    }

    /// The register with `energy_detect_enable` replaced.
    #[verifier::allow_in_spec]
    pub fn with_energy_detect_enable(self, value: bool) -> Self
        returns
            (IER { bits: with_flag(self.bits, 2, value) }),
    {
        IER { bits: set_flag(self.bits, 2, value) }
    }

    /// Replaces `energy_detect_enable` in place.
    pub fn write_energy_detect_enable(&mut self, value: bool)
        ensures
            *final(self) == old(self).with_energy_detect_enable(value),
    {
        self.bits = set_flag(self.bits, 2, value);
    }

    /// Interrupt when an SPI access was malformed.
    #[verifier::allow_in_spec]
    pub fn read_spi_bus_error_enable(&self) -> bool
        returns
            flag(self.bits, 1),
    {
        get_flag(self.bits, 1)
    }

    /// The register with `spi_bus_error_enable` replaced.
    #[verifier::allow_in_spec]
    pub fn with_spi_bus_error_enable(self, value: bool) -> Self
        returns
            (IER { bits: with_flag(self.bits, 1, value) }),
    {
        IER { bits: set_flag(self.bits, 1, value) }
    }

    /// Replaces `spi_bus_error_enable` in place.
    pub fn write_spi_bus_error_enable(&mut self, value: bool)
        ensures
            *final(self) == old(self).with_spi_bus_error_enable(value),
    {
        self.bits = set_flag(self.bits, 1, value);
    }

    /// Interrupt when the delayed energy detection fired.
    #[verifier::allow_in_spec]
    pub fn read_delay_energy_detect_enable(&self) -> bool
        returns
            flag(self.bits, 0),
    {
        get_flag(self.bits, 0)
    }

    /// The register with `delay_energy_detect_enable` replaced.
    #[verifier::allow_in_spec]
    pub fn with_delay_energy_detect_enable(self, value: bool) -> Self
        returns
            (IER { bits: with_flag(self.bits, 0, value) }),
    {
        IER { bits: set_flag(self.bits, 0, value) }
    }

    /// Replaces `delay_energy_detect_enable` in place.
    pub fn write_delay_energy_detect_enable(&mut self, value: bool)
        ensures
            *final(self) == old(self).with_delay_energy_detect_enable(value),
    {
        self.bits = set_flag(self.bits, 0, value);
    }
}

/// Interrupt status register. Writing a one clears the source.
#[derive(Clone, Copy, Debug, PartialEq, Eq, Structural)]
pub struct ISR {
    /// The register word; bit 15 is the most significant.
    pub bits: u16,
}

impl ISR {
    /// The register's address on the chip.
    pub const ADDRESS: u8 = 0x92;

    /// The register with every bit clear.
    #[verifier::allow_in_spec]
    pub fn zeroed() -> Self
        returns
            (ISR { bits: 0 }),
    {
        ISR { bits: 0 }
    }

    /// The register from its two bytes in bus order, low byte first.
    pub fn from_bytes(data: [u8; 2]) -> (r: Self)
        ensures
            r.bits == word_of(data[0], data[1]),
    {
        ISR { bits: join(data[0], data[1]) }
    }

    /// The register's two bytes in bus order, low byte first.
    pub fn data(&self) -> (d: [u8; 2])
        ensures
            d[0] == low_byte(self.bits),
            d[1] == high_byte(self.bits),
    {
        let (lo, hi) = split(self.bits);
        [lo, hi]
    }

    /// The link came up or went down.
    #[verifier::allow_in_spec]
    pub fn read_link_change(&self) -> bool
        returns
            flag(self.bits, 15),
    {
        get_flag(self.bits, 15)
    }

    /// The register with `link_change` replaced.
    #[verifier::allow_in_spec]
    pub fn with_link_change(self, value: bool) -> Self
        returns
            (ISR { bits: with_flag(self.bits, 15, value) }),
    {
        ISR { bits: set_flag(self.bits, 15, value) }
    }

    /// Replaces `link_change` in place.
    pub fn write_link_change(&mut self, value: bool)
        ensures
            *final(self) == old(self).with_link_change(value),
    {
        self.bits = set_flag(self.bits, 15, value);
    }

    /// A frame was sent.
    #[verifier::allow_in_spec]
    pub fn read_transmit(&self) -> bool
        returns
            flag(self.bits, 14),
    {
        get_flag(self.bits, 14)
    }

    /// The register with `transmit` replaced.
    #[verifier::allow_in_spec]
    pub fn with_transmit(self, value: bool) -> Self
        returns
            (ISR { bits: with_flag(self.bits, 14, value) }),
    {
        ISR { bits: set_flag(self.bits, 14, value) }
    }

    /// Replaces `transmit` in place.
    pub fn write_transmit(&mut self, value: bool)
        ensures
            *final(self) == old(self).with_transmit(value),
    {
        self.bits = set_flag(self.bits, 14, value);
    }

    /// A frame was received.
    #[verifier::allow_in_spec]
    pub fn read_receive(&self) -> bool
        returns
            flag(self.bits, 13),
    {
        get_flag(self.bits, 13)
    }

    /// The register with `receive` replaced.
    #[verifier::allow_in_spec]
    pub fn with_receive(self, value: bool) -> Self
        returns
            (ISR { bits: with_flag(self.bits, 13, value) }),
    {
        ISR { bits: set_flag(self.bits, 13, value) }
    }

    /// Replaces `receive` in place.
    pub fn write_receive(&mut self, value: bool)
        ensures
            *final(self) == old(self).with_receive(value),
    {
        self.bits = set_flag(self.bits, 13, value);
    }

    /// The receive queue overflowed.
    #[verifier::allow_in_spec]
    pub fn read_receive_overrun(&self) -> bool
        returns
            flag(self.bits, 11),
    {
        get_flag(self.bits, 11)
    }

    /// The register with `receive_overrun` replaced.
    #[verifier::allow_in_spec]
    pub fn with_receive_overrun(self, value: bool) -> Self
        returns
            (ISR { bits: with_flag(self.bits, 11, value) }),
    {
        ISR { bits: set_flag(self.bits, 11, value) }
    }

    /// Replaces `receive_overrun` in place.
    pub fn write_receive_overrun(&mut self, value: bool)
        ensures
            *final(self) == old(self).with_receive_overrun(value),
    {
        self.bits = set_flag(self.bits, 11, value);
    }

    /// The transmitter stopped.
    #[verifier::allow_in_spec]
    pub fn read_transmit_process_stopped(&self) -> bool
        returns
            flag(self.bits, 9),
    {
        get_flag(self.bits, 9)
    }

    /// The register with `transmit_process_stopped` replaced.
    #[verifier::allow_in_spec]
    pub fn with_transmit_process_stopped(self, value: bool) -> Self
        returns
            (ISR { bits: with_flag(self.bits, 9, value) }),
    {
        ISR { bits: set_flag(self.bits, 9, value) }
    }

    /// Replaces `transmit_process_stopped` in place.
    pub fn write_transmit_process_stopped(&mut self, value: bool)
        ensures
            *final(self) == old(self).with_transmit_process_stopped(value),
    {
        self.bits = set_flag(self.bits, 9, value);
    }

    /// The receiver stopped.
    #[verifier::allow_in_spec]
    pub fn read_receive_process_stopped(&self) -> bool
        returns
            flag(self.bits, 8),
    {
        get_flag(self.bits, 8)
    }

    /// The register with `receive_process_stopped` replaced.
    #[verifier::allow_in_spec]
    pub fn with_receive_process_stopped(self, value: bool) -> Self
        returns
            (ISR { bits: with_flag(self.bits, 8, value) }),
    {
        ISR { bits: set_flag(self.bits, 8, value) }
    }

    /// Replaces `receive_process_stopped` in place.
    pub fn write_receive_process_stopped(&mut self, value: bool)
        ensures
            *final(self) == old(self).with_receive_process_stopped(value),
    {
        self.bits = set_flag(self.bits, 8, value);
    }

    /// The announced frame size fits in transmit memory.
    #[verifier::allow_in_spec]
    pub fn read_transmit_space_available(&self) -> bool
        returns
            flag(self.bits, 6),
    {
        get_flag(self.bits, 6)
    }

    /// The register with `transmit_space_available` replaced.
    #[verifier::allow_in_spec]
    pub fn with_transmit_space_available(self, value: bool) -> Self
        returns
            (ISR { bits: with_flag(self.bits, 6, value) }),
    {
        ISR { bits: set_flag(self.bits, 6, value) }
    }

    /// Replaces `transmit_space_available` in place.
    pub fn write_transmit_space_available(&mut self, value: bool)
        ensures
            *final(self) == old(self).with_transmit_space_available(value),
    {
        self.bits = set_flag(self.bits, 6, value);
    }

    /// A wake-up frame arrived.
    #[verifier::allow_in_spec]
    pub fn read_receive_wakeup_frame_detect(&self) -> bool
        returns
            flag(self.bits, 5),
    {
        get_flag(self.bits, 5)
    }

    /// The register with `receive_wakeup_frame_detect` replaced.
    #[verifier::allow_in_spec]
    pub fn with_receive_wakeup_frame_detect(self, value: bool) -> Self
        returns
            (ISR { bits: with_flag(self.bits, 5, value) }),
    {
        ISR { bits: set_flag(self.bits, 5, value) }
    }

    /// Replaces `receive_wakeup_frame_detect` in place.
    pub fn write_receive_wakeup_frame_detect(&mut self, value: bool)
        ensures
            *final(self) == old(self).with_receive_wakeup_frame_detect(value),
    {
        self.bits = set_flag(self.bits, 5, value);
    }

    /// A magic packet arrived.
    #[verifier::allow_in_spec]
    pub fn read_receive_magic_packet_detect(&self) -> bool
        returns
            flag(self.bits, 4),
    {
        get_flag(self.bits, 4)
    }

    /// The register with `receive_magic_packet_detect` replaced.
    #[verifier::allow_in_spec]
    pub fn with_receive_magic_packet_detect(self, value: bool) -> Self
        returns
            (ISR { bits: with_flag(self.bits, 4, value) }),
    {
        ISR { bits: set_flag(self.bits, 4, value) }
    }

    /// Replaces `receive_magic_packet_detect` in place.
    pub fn write_receive_magic_packet_detect(&mut self, value: bool)
        ensures
            *final(self) == old(self).with_receive_magic_packet_detect(value),
    {
        self.bits = set_flag(self.bits, 4, value);
    }

    /// A link-up event woke the chip.
    #[verifier::allow_in_spec]
    pub fn read_linkup_detect(&self) -> bool
        returns
            flag(self.bits, 3),
    {
        get_flag(self.bits, 3)
    }

    /// The register with `linkup_detect` replaced.
    #[verifier::allow_in_spec]
    pub fn with_linkup_detect(self, value: bool) -> Self
        returns
            (ISR { bits: with_flag(self.bits, 3, value) }),
    {
        ISR { bits: set_flag(self.bits, 3, value) }
    }

    /// Replaces `linkup_detect` in place.
    pub fn write_linkup_detect(&mut self, value: bool)
        ensures
            *final(self) == old(self).with_linkup_detect(value),
    {
        self.bits = set_flag(self.bits, 3, value);
    }

    /// Energy on the line woke the chip.
    #[verifier::allow_in_spec]
    pub fn read_energy_detect(&self) -> bool
        returns
            flag(self.bits, 2),
    {
        get_flag(self.bits, 2)
    }

    /// The register with `energy_detect` replaced.
    #[verifier::allow_in_spec]
    pub fn with_energy_detect(self, value: bool) -> Self
        returns
            (ISR { bits: with_flag(self.bits, 2, value) }),
    {
        ISR { bits: set_flag(self.bits, 2, value) }
    }

    /// Replaces `energy_detect` in place.
    pub fn write_energy_detect(&mut self, value: bool)
        ensures
            *final(self) == old(self).with_energy_detect(value),
    {
        self.bits = set_flag(self.bits, 2, value);
    }

    /// An SPI access was malformed.
    #[verifier::allow_in_spec]
    pub fn read_spi_bus_error(&self) -> bool
        returns
            flag(self.bits, 1),
    {
        get_flag(self.bits, 1)
    }

    /// The register with `spi_bus_error` replaced.
    #[verifier::allow_in_spec]
    pub fn with_spi_bus_error(self, value: bool) -> Self
        returns
            (ISR { bits: with_flag(self.bits, 1, value) }),
    {
        ISR { bits: set_flag(self.bits, 1, value) }
    }

    /// Replaces `spi_bus_error` in place.
    pub fn write_spi_bus_error(&mut self, value: bool)
        ensures
            *final(self) == old(self).with_spi_bus_error(value),
    {
        self.bits = set_flag(self.bits, 1, value);
    }
}

} // verus!
