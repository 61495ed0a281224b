//! The command header that opens every SPI access to the chip.
//!
//! A register access sends two bytes: the opcode, a byte-enable mask that
//! selects two bytes of a 4-byte-aligned word, and the word's address. A bulk
//! frame transfer sends the opcode alone.

use vstd::prelude::*;

verus! {

/// The four kinds of SPI access, with the two-bit code of each.
#[derive(Clone, Copy, Debug, PartialEq, Eq)]
pub enum Opcode {
    RegRead,
    RegWrite,
    RXRead,
    TXWrite,
}

impl Opcode {
    /// The opcode's two-bit code.
    pub open spec fn code(self) -> u8 {
        match self {
            Opcode::RegRead => 0b00,
            Opcode::RegWrite => 0b01,
            Opcode::RXRead => 0b10,
            Opcode::TXWrite => 0b11,
        }
    }

    /// Computes [`Opcode::code`].
    pub fn bits(self) -> (b: u8)
        ensures
            b == self.code(),
    {
        match self {
            Opcode::RegRead => 0b00,
            Opcode::RegWrite => 0b01,
            Opcode::RXRead => 0b10,
            Opcode::TXWrite => 0b11,
        }
    }
}

/// The byte-enable mask for an access of `count` bytes at `addr`: the low or
/// the high half of the aligned word, and nothing else.
pub open spec fn byte_enable_of(addr: u8, count: u8) -> Option<u8> {
    if count == 2 && addr % 4 == 0 {
        Some(0b0011u8)
    } else if count == 2 && addr % 4 == 2 {
        Some(0b1100u8)
    } else {
        None
    }
}

/// The two command bytes of a register access.
pub open spec fn reg_cmd_bytes(o: Opcode, addr: u8, count: u8) -> (u8, u8) {
    let enable = byte_enable_of(addr, count).unwrap();
    ((o.code() << 6) | (enable << 2) | (addr >> 6), (addr & 0b0011_1100) << 2)
}

/// The single command byte of a bulk frame transfer.
pub open spec fn frame_cmd_byte(o: Opcode) -> u8 {
    o.code() << 6
}

/// Every register at an even address can be accessed, two bytes at a time.
/// As numbers, the first command byte holds the opcode in its two high bits,
/// the byte enables below, and the two high bits of the address at the
/// bottom; the second holds the next four bits of the address in its high
/// half. The low half of a word has the byte enables 0011, the high half
/// 1100, and both have the same address bits.
pub proof fn lemma_reg_cmd_is_digits(o: Opcode, addr: u8)
    requires
        addr % 2 == 0,
    ensures
        byte_enable_of(addr, 2) == Some(if addr % 4 == 0 {
            0b0011u8
        } else {
            0b1100u8
        }),
        reg_cmd_bytes(o, addr, 2).0 == 64 * o.code() + 4 * byte_enable_of(addr, 2).unwrap() + addr
            / 64,
        reg_cmd_bytes(o, addr, 2).1 == 16 * ((addr / 4) % 16),
{
    let code = o.code();
    let enable = byte_enable_of(addr, 2).unwrap();
    assert((code << 6) | (enable << 2) | (addr >> 6) == 64 * code + 4 * enable + addr / 64)
        by (bit_vector)
        requires
            code <= 3,
            enable <= 15,
    ;
    assert((addr & 0b0011_1100) << 2 == 16 * ((addr / 4) % 16)) by (bit_vector);
}

/// Computes [`byte_enable_of`].
pub fn byte_enable(addr: u8, count: u8) -> (enable: Option<u8>)
    ensures
        enable == byte_enable_of(addr, count),
{
    assert(addr & 0b11 == addr % 4) by (bit_vector);
    if count != 2 {
        None
    } else if addr & 0b11 == 0 {
        Some(0b0011)
    } else if addr & 0b11 == 2 {
        Some(0b1100)
    } else {
        None
    }
}

/// Builds the command header for reading or writing `count` bytes of the
/// register at `addr`.
pub fn reg_cmd(o: Opcode, addr: u8, count: u8) -> (cmd: [u8; 2])
    requires
        byte_enable_of(addr, count) is Some,
    ensures
        cmd[0] == reg_cmd_bytes(o, addr, count).0,
        cmd[1] == reg_cmd_bytes(o, addr, count).1,
{
    let enable: u8 = match byte_enable(addr, count) {
        Some(e) => e,
        None => 0,
    };
    [(o.bits() << 6) | (enable << 2) | (addr >> 6), (addr & 0b0011_1100) << 2]
}

/// Builds the command byte that opens a bulk frame transfer.
pub fn frame_cmd(o: Opcode) -> (cmd: u8)
    ensures
        cmd == frame_cmd_byte(o),
        o == Opcode::RXRead ==> cmd == 0x80,
        o == Opcode::TXWrite ==> cmd == 0xC0,
{
    assert(0b10u8 << 6 == 0x80) by (bit_vector);
    assert(0b11u8 << 6 == 0xC0) by (bit_vector);
    o.bits() << 6
}

} // verus!
