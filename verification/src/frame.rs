//! The layout of a frame as it crosses the bus.
//!
//! Written to the chip, a frame follows a control word and its own length, and
//! zero bytes fill it up to a multiple of four. Read from the chip, it follows
//! four dummy bytes and a copy of the status and byte count registers; its
//! check sequence and the same filling come after it.

use crate::bits::{high_byte, low_byte, split};
use crate::command::{frame_cmd, frame_cmd_byte, Opcode};
use vstd::prelude::*;

verus! {

/// The largest frame that the driver hands to or takes from the network
/// stack: a full Ethernet frame without preamble and check sequence.
pub const MTU: usize = 1514;

/// The bytes of the check sequence that closes each received frame.
pub const CRC_LEN: u16 = 4;

/// The bytes that precede the payload in a bulk read: four dummy bytes, the
/// status word and the byte count.
pub const RX_HEADER_LEN: usize = 8;

/// The word that precedes each outgoing frame.
#[derive(Clone, Copy, Debug, PartialEq, Eq, Structural)]
pub struct TXCtrlWord {
    /// Ask for the transmit interrupt once the frame has left.
    pub transmit_interrupt_on_completion: bool,
    /// The tag of the frame; its six low bits go to the chip.
    pub frame_id: u8,
}

impl TXCtrlWord {
    /// The control word as a 16-bit value: the interrupt request in bit 15,
    /// the frame's tag in bits 5 to 0.
    pub open spec fn word(self) -> u16 {
        ((self.frame_id as u16) & 0x3f) | (if self.transmit_interrupt_on_completion {
            0x8000u16
        } else {
            0u16
        })
    }

    /// The control word's two bytes in bus order, low byte first.
    pub fn into_bytes(self) -> (d: [u8; 2])
        ensures
            d[0] == low_byte(self.word()),
            d[1] == high_byte(self.word()),
            d[0] == self.frame_id % 64,
            d[1] == if self.transmit_interrupt_on_completion { 0x80u8 } else { 0u8 },
    {
        let id: u8 = self.frame_id & 0x3f;
        let top: u8 = if self.transmit_interrupt_on_completion { 0x80 } else { 0 };
        proof {
            let f = self.frame_id;
            assert(f & 0x3f == f % 64) by (bit_vector);
            assert(((((f as u16) & 0x3f) | 0x8000u16) & 0xff) as u8 == f & 0x3f) by (bit_vector);
            assert(((((f as u16) & 0x3f) | 0x8000u16) >> 8) as u8 == 0x80u8) by (bit_vector);
            assert(((((f as u16) & 0x3f) | 0u16) & 0xff) as u8 == f & 0x3f) by (bit_vector);
            assert(((((f as u16) & 0x3f) | 0u16) >> 8) as u8 == 0u8) by (bit_vector);
        }
        [id, top]
    }
}

impl Default for TXCtrlWord {
    /// The control word that asks for nothing and tags the frame 0.
    fn default() -> (w: Self)
        ensures
            w == (TXCtrlWord { transmit_interrupt_on_completion: false, frame_id: 0 }),
    {
        TXCtrlWord { transmit_interrupt_on_completion: false, frame_id: 0 }
    }
}

/// How many zero bytes fill `len` bytes up to a multiple of four.
pub open spec fn padding(len: int) -> int {
    (4 - len % 4) % 4
}

/// `n` zero bytes.
pub open spec fn zeros(n: int) -> Seq<u8> {
    Seq::new(n as nat, |i: int| 0u8)
}

/// Everything that one bulk write sends for `frame`: the command byte, the
/// control word, the frame's length, the frame, and the filling.
pub open spec fn tx_bytes(control: TXCtrlWord, frame: Seq<u8>) -> Seq<u8> {
    seq![
        frame_cmd_byte(Opcode::TXWrite),
        low_byte(control.word()),
        high_byte(control.word()),
        low_byte(frame.len() as u16),
        high_byte(frame.len() as u16),
    ] + frame + zeros(padding(frame.len() as int))
}

/// How many bytes one bulk read clocks in for a frame whose byte count,
/// check sequence included, is `byte_count`.
pub open spec fn rx_len(byte_count: int) -> int {
    RX_HEADER_LEN + byte_count + padding(byte_count)
}

/// The payload of a frame within the bytes of a bulk read: what follows the
/// header, without the check sequence.
pub open spec fn rx_payload(data: Seq<u8>, byte_count: int) -> Seq<u8> {
    data.subrange(RX_HEADER_LEN as int, RX_HEADER_LEN + byte_count - CRC_LEN)
}

/// What a bulk write sends after the command byte is the control word, the
/// length, the frame and its filling, and comes to a multiple of four bytes.
pub proof fn lemma_tx_length(control: TXCtrlWord, frame: Seq<u8>)
    ensures
        tx_bytes(control, frame).len() - 1 == 2 + 2 + frame.len() + padding(frame.len() as int),
        (tx_bytes(control, frame).len() - 1) % 4 == 0,
        tx_bytes(control, frame)[0] == frame_cmd_byte(Opcode::TXWrite),
{
}

/// What a bulk read clocks in comes to a multiple of four bytes, and holds
/// the header, the payload, the check sequence and the filling.
pub proof fn lemma_rx_length(byte_count: int)
    requires
        CRC_LEN <= byte_count,
    ensures
        rx_len(byte_count) % 4 == 0,
        rx_len(byte_count) == 4 + 2 + 2 + (byte_count - CRC_LEN) + CRC_LEN + padding(byte_count),
{
}

/// Computes [`padding`].
pub fn pad_len(len: usize) -> (pad: usize)
    ensures
        pad == padding(len as int),
        pad < 4,
        (len + pad) % 4 == 0,
{
    (4 - (len % 4)) % 4
}

/// Builds the bytes of the bulk write that hands `frame` to the chip.
pub fn tx_frame(control: TXCtrlWord, frame: &[u8]) -> (out: Vec<u8>)
    requires
        frame@.len() <= u16::MAX,
    ensures
        out@ == tx_bytes(control, frame@),
        out@.len() == 1 + 2 + 2 + frame@.len() + padding(frame@.len() as int),
        (out@.len() - 1) % 4 == 0,
{
    let n: usize = frame.len();
    let pad: usize = pad_len(n);
    let ctrl = control.into_bytes();
    let (len_lo, len_hi) = split(n as u16);
    let mut out: Vec<u8> = Vec::with_capacity(5 + n + pad);
    out.push(frame_cmd(Opcode::TXWrite));
    out.push(ctrl[0]);
    out.push(ctrl[1]);
    out.push(len_lo);
    out.push(len_hi);
    let ghost head = out@;
    let mut i: usize = 0;
    while i < n
        invariant
            n == frame@.len(),
            i <= n,
            out@ == head + frame@.subrange(0, i as int),
        decreases n - i,
    {
        out.push(frame[i]);
        i += 1;
        assert(out@ =~= head + frame@.subrange(0, i as int));
    }
    assert(frame@.subrange(0, n as int) =~= frame@);
    let ghost body = out@;
    let mut k: usize = 0;
    while k < pad
        invariant
            k <= pad,
            out@ == body + zeros(k as int),
        decreases pad - k,
    {
        out.push(0);
        k += 1;
        assert(out@ =~= body + zeros(k as int));
    }
    assert(out@ =~= tx_bytes(control, frame@));
    out
}

} // verus!
