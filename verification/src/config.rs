//! What the driver programs into the chip when it brings it up.
//!
//! Most settings change a few fields of a register and leave the rest as the
//! chip has them: the register is read, changed by one of the functions
//! here, and written back.

use crate::registers::{
    SPIRxDataBurstLength, GRR, IER, P1CR, RXCR1, RXCR2, RXDTTR, RXFDPR, RXQCR, TXCR, TXFDPR, TXQCR,
};
use vstd::prelude::*;

verus! {

/// How long, in microseconds, the chip may hold a received frame back before
/// it raises the receive interrupt.
pub const RX_DURATION_THRESHOLD: u16 = 1000;

/// How long, in milliseconds, the chip is held in reset, and how long it is
/// left alone after each change of its reset state.
pub const RESET_MILLIS: u32 = 10;

/// The reset register while the chip is held in soft reset.
#[verifier::allow_in_spec]
pub fn reset_asserted() -> GRR
    returns
        GRR::zeroed().with_global_soft_reset(true),
{
    GRR::zeroed().with_global_soft_reset(true)
}

/// The transmit pointer advances by itself.
#[verifier::allow_in_spec]
pub fn transmit_pointer(txfdpr: TXFDPR) -> TXFDPR
    returns
        txfdpr.with_tx_frame_data_pointer_auto_increment(true),
{
    txfdpr.with_tx_frame_data_pointer_auto_increment(true)
}

/// The chip appends the check sequence and pads short frames; it computes
/// no checksums and sends no flow control.
#[verifier::allow_in_spec]
pub fn transmit_control(txcr: TXCR) -> TXCR
    returns
        txcr.with_checksum_gen_icmp(false).with_checksum_gen_tcp(false).with_checksum_gen_ip(
            false,
        ).with_flow_control_enable(false).with_padding_enable(true).with_crc_enable(true),
{
    txcr.with_checksum_gen_icmp(false).with_checksum_gen_tcp(false).with_checksum_gen_ip(
        false,
    ).with_flow_control_enable(false).with_padding_enable(true).with_crc_enable(true)
}

/// The duration timer that bounds the wait for the receive interrupt.
#[verifier::allow_in_spec]
pub fn receive_timer() -> RXDTTR
    returns
        RXDTTR::zeroed().with_receive_duration_timer_threshold(RX_DURATION_THRESHOLD),
{
    RXDTTR::zeroed().with_receive_duration_timer_threshold(RX_DURATION_THRESHOLD)
}

/// The receive pointer advances by itself.
#[verifier::allow_in_spec]
pub fn receive_pointer(rxfdpr: RXFDPR) -> RXFDPR
    returns
        rxfdpr.with_rx_frame_pointer_auto_increment(true),
{
    rxfdpr.with_rx_frame_pointer_auto_increment(true)
}

/// The receive interrupt follows the duration timer, frames leave the queue
/// once read, and no bytes are put before the IP header.
#[verifier::allow_in_spec]
pub fn receive_queue(rxqcr: RXQCR) -> RXQCR
    returns
        rxqcr.with_rx_duration_timer_threshold_enable(true).with_rx_ip_header_two_byte_offset_enable(
            false,
        ).with_auto_dequeue_rxq_frame_enable(true),
{
    rxqcr.with_rx_duration_timer_threshold_enable(true).with_rx_ip_header_two_byte_offset_enable(
        false,
    ).with_auto_dequeue_rxq_frame_enable(true)
}

/// Unicast frames are received, broadcast frames as `broadcast` says; no
/// checksum is checked and no pause frame honoured.
#[verifier::allow_in_spec]
pub fn receive_control(rxcr1: RXCR1, broadcast: bool) -> RXCR1
    returns
        rxcr1.with_receive_udp_frame_checksum_check_enable(
            false,
        ).with_receive_tcp_frame_checksum_check_enable(
            false,
        ).with_receive_ip_frame_checksum_check_enable(false).with_receive_flow_control_enable(
            false,
        ).with_receive_broadcast_enable(broadcast).with_receive_unicast_enable(true),
{
    rxcr1.with_receive_udp_frame_checksum_check_enable(
        false,
    ).with_receive_tcp_frame_checksum_check_enable(
        false,
    ).with_receive_ip_frame_checksum_check_enable(false).with_receive_flow_control_enable(
        false,
    ).with_receive_broadcast_enable(broadcast).with_receive_unicast_enable(true)
}

/// One bulk read moves one whole frame; UDP fragments and UDP frames
/// without a checksum pass.
#[verifier::allow_in_spec]
pub fn receive_burst(rxcr2: RXCR2) -> RXCR2
    returns
        rxcr2.with_ip4_ip6_udp_fragment_frame_pass(
            true,
        ).with_receive_ip4_ip6_udp_frame_checksum_equal_zero(true).with_udp_lite_frame_enable(
            true,
        ).with_receive_icmp_frame_checksum_check_enable(true).with_spi_receive_data_burst_length(
            SPIRxDataBurstLength::SINGLEFRAME,
        ),
{
    rxcr2.with_ip4_ip6_udp_fragment_frame_pass(
        true,
    ).with_receive_ip4_ip6_udp_frame_checksum_equal_zero(true).with_udp_lite_frame_enable(
        true,
    ).with_receive_icmp_frame_checksum_check_enable(true).with_spi_receive_data_burst_length(
        SPIRxDataBurstLength::SINGLEFRAME,
    )
}

/// The interrupt sources that the driver listens to.
#[verifier::allow_in_spec]
pub fn interrupts(ier: IER) -> IER
    returns
        ier.with_link_change_enable(true).with_transmit_space_available_enable(
            true,
        ).with_transmit_enable(true).with_receive_enable(true).with_receive_overrun_enable(
            true,
        ).with_spi_bus_error_enable(true),
{
    ier.with_link_change_enable(true).with_transmit_space_available_enable(
        true,
    ).with_transmit_enable(true).with_receive_enable(true).with_receive_overrun_enable(
        true,
    ).with_spi_bus_error_enable(true)
}

/// The port's LEDs stay dark.
#[verifier::allow_in_spec]
pub fn port(p1cr: P1CR) -> P1CR
    returns
        p1cr.with_led_off(true),
{
    p1cr.with_led_off(true)
}

/// Frames are sent when the driver says so, not as soon as they are written.
#[verifier::allow_in_spec]
pub fn transmit_queue(txqcr: TXQCR) -> TXQCR
    returns
        txqcr.with_auto_enqueue_txq_frame_enable(false),
{
    txqcr.with_auto_enqueue_txq_frame_enable(false)
}

/// The transmitter runs.
#[verifier::allow_in_spec]
pub fn transmit_enabled(txcr: TXCR) -> TXCR
    returns
        txcr.with_transmit_enable(true),
{
    txcr.with_transmit_enable(true)
}

/// The receiver runs.
#[verifier::allow_in_spec]
pub fn receive_enabled(rxcr1: RXCR1) -> RXCR1
    returns
        rxcr1.with_receive_enable(true),
{
    rxcr1.with_receive_enable(true)
}

} // verus!
