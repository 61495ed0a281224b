//! The bytes of each bus operation.
//!
//! A register access is one SPI transaction: the two command bytes, then the
//! register's two bytes, low byte first. A frame transfer is one transaction
//! too: the command byte, then the frame in its bus layout.

use crate::bits::{high_byte, join, low_byte, split, word_of};
use crate::bus::{Operation, Reply};
use crate::command::{frame_cmd, frame_cmd_byte, reg_cmd, reg_cmd_bytes, Opcode};
use crate::frame::{pad_len, rx_len, rx_payload, tx_bytes, tx_frame, CRC_LEN, RX_HEADER_LEN};
use vstd::prelude::*;

verus! {

/// One SPI transaction with the chip selected throughout: the bytes in
/// `write` are clocked out, then `read` bytes are clocked in.
#[derive(Debug, PartialEq, Eq)]
pub struct Transfer {
    pub write: Vec<u8>,
    pub read: usize,
}

/// The size of every register of the chip, in bytes.
pub const REGISTER_SIZE: u8 = 2;

/// Turns bus operations into bytes and bytes into replies.
pub struct Codec {}

impl Codec {
    /// The bytes that a read of the register at `address` sends.
    pub open spec fn read_bytes(address: u8) -> Seq<u8> {
        seq![
            reg_cmd_bytes(Opcode::RegRead, address, REGISTER_SIZE).0,
            reg_cmd_bytes(Opcode::RegRead, address, REGISTER_SIZE).1,
        ]
    }

    /// The bytes that a write of `word` to the register at `address` sends.
    pub open spec fn write_bytes(address: u8, word: u16) -> Seq<u8> {
        seq![
            reg_cmd_bytes(Opcode::RegWrite, address, REGISTER_SIZE).0,
            reg_cmd_bytes(Opcode::RegWrite, address, REGISTER_SIZE).1,
            low_byte(word),
            high_byte(word),
        ]
    }

    /// Whether `op` can be put on the bus with `frame` as the outgoing
    /// frame: registers lie at even addresses, and a frame's length fits the
    /// length field in front of it.
    pub open spec fn encodable(op: Operation, frame: Seq<u8>) -> bool {
        match op {
            Operation::ReadRegister { address } => address % 2 == 0,
            Operation::WriteRegister { address, .. } => address % 2 == 0,
            Operation::WriteFrame { .. } => frame.len() <= u16::MAX,
            _ => true,
        }
    }

    /// The bytes that `op` sends, with `frame` as the outgoing frame. A
    /// delay and the reset line send none.
    pub open spec fn sent(op: Operation, frame: Seq<u8>) -> Seq<u8> {
        match op {
            Operation::ReadRegister { address } => Self::read_bytes(address),
            Operation::WriteRegister { address, word } => Self::write_bytes(address, word),
            Operation::WriteFrame { control } => tx_bytes(control, frame),
            Operation::ReadFrame { .. } => seq![frame_cmd_byte(Opcode::RXRead)],
            _ => Seq::empty(),
        }
    }

    /// How many bytes `op` reads back.
    pub open spec fn received(op: Operation) -> int {
        match op {
            Operation::ReadRegister { .. } => REGISTER_SIZE as int,
            Operation::ReadFrame { byte_count } => rx_len(byte_count as int),
            _ => 0,
        }
    }

    /// The reply that the bytes `data`, read back by `op`, amount to.
    pub open spec fn decoded(op: Operation, data: Seq<u8>) -> Reply {
        match op {
            Operation::ReadRegister { .. } => Reply::Word(word_of(data[0], data[1])),
            Operation::ReadFrame { .. } => Reply::Frame {
                status: word_of(data[4], data[5]),
                byte_count: word_of(data[6], data[7]),
            },
            _ => Reply::Done,
        }
    }

    /// The receive buffer after `op` has read `data`: a frame read puts the
    /// payload at the front, and nothing else touches the buffer.
    pub open spec fn stored(op: Operation, data: Seq<u8>, rx_buf: Seq<u8>) -> Seq<u8> {
        match op {
            Operation::ReadFrame { byte_count } => rx_payload(data, byte_count as int)
                + rx_buf.subrange(byte_count - CRC_LEN, rx_buf.len() as int),
            _ => rx_buf,
        }
    }

    /// Whether the bytes `data` can be what `op` read back, and a receive
    /// buffer of `room` bytes can take what `op` stores: `data` has the
    /// length that `op` reads, and the payload of a frame, which is the
    /// frame without its check sequence, is no longer than the buffer.
    pub open spec fn decodable(op: Operation, data: Seq<u8>, room: int) -> bool {
        &&& data.len() == Self::received(op)
        &&& op matches Operation::ReadFrame { byte_count } ==> CRC_LEN <= byte_count
            && byte_count - CRC_LEN <= room
    }

    /// Computes [`Codec::encodable`].
    pub fn can_encode(op: &Operation, frame: &[u8]) -> (b: bool)
        ensures
            b == Self::encodable(*op, frame@),
    {
        match op {
            Operation::ReadRegister { address } => *address % 2 == 0,
            Operation::WriteRegister { address, .. } => *address % 2 == 0,
            Operation::WriteFrame { .. } => frame.len() <= u16::MAX as usize,
            _ => true,
        }
    }

    /// Computes [`Codec::decodable`].
    pub fn can_decode(op: &Operation, data: &[u8], rx_buf: &[u8]) -> (b: bool)
        ensures
            b == Self::decodable(*op, data@, rx_buf@.len() as int),
    {
        match op {
            Operation::ReadRegister { .. } => data.len() == REGISTER_SIZE as usize,
            Operation::ReadFrame { byte_count } => {
                let count: usize = *byte_count as usize;
                data.len() == RX_HEADER_LEN + count + pad_len(count) && CRC_LEN <= *byte_count
                    && count - (CRC_LEN as usize) <= rx_buf.len()
            },
            _ => data.len() == 0,
        }
    }

    /// The transaction that reads the register at `address`.
    pub fn read_register(address: u8) -> (t: Transfer)
        requires
            address % 2 == 0,
        ensures
            t.write@ == Self::read_bytes(address),
            t.read == REGISTER_SIZE,
    {
        let cmd = reg_cmd(Opcode::RegRead, address, REGISTER_SIZE);
        let mut write: Vec<u8> = Vec::with_capacity(2);
        write.push(cmd[0]);
        write.push(cmd[1]);
        assert(write@ =~= Self::read_bytes(address));
        Transfer { write, read: 2 }
    }

    /// The transaction that writes a register's bytes, given in bus order,
    /// to `address`.
    pub fn write_register(address: u8, data: [u8; 2]) -> (t: Transfer)
        requires
            address % 2 == 0,
        ensures
            t.write@ == Self::write_bytes(address, word_of(data[0], data[1])),
            t.read == 0,
    {
        let cmd = reg_cmd(Opcode::RegWrite, address, REGISTER_SIZE);
        let mut write: Vec<u8> = Vec::with_capacity(4);
        write.push(cmd[0]);
        write.push(cmd[1]);
        write.push(data[0]);
        write.push(data[1]);
        proof {
            crate::bits::lemma_split_join(data[0], data[1]);
            assert(write@ =~= Self::write_bytes(address, word_of(data[0], data[1])));
        }
        Transfer { write, read: 0 }
    }

    /// The transaction that reads the frame of `byte_count` bytes at the
    /// head of the receive queue.
    pub fn read_frame(byte_count: u16) -> (t: Transfer)
        ensures
            t.write@ == seq![frame_cmd_byte(Opcode::RXRead)],
            t.read == rx_len(byte_count as int),
            t.read % 4 == 0,
    {
        let mut write: Vec<u8> = Vec::with_capacity(1);
        write.push(frame_cmd(Opcode::RXRead));
        assert(write@ =~= seq![frame_cmd_byte(Opcode::RXRead)]);
        let count: usize = byte_count as usize;
        Transfer { write, read: RX_HEADER_LEN + count + pad_len(count) }
    }

    /// The transaction that carries `op` out, with `frame` as the outgoing
    /// frame; `None` for an operation that does not go over the bus.
    pub fn request(op: &Operation, frame: &[u8]) -> (t: Option<Transfer>)
        requires
            Self::encodable(*op, frame@),
        ensures
            t is Some <==> op.on_bus(),
            t matches Some(t) ==> t.write@ == Self::sent(*op, frame@) && t.read == Self::received(
                *op,
            ),
    {
        match op {
            Operation::ReadRegister { address } => Some(Self::read_register(*address)),
            Operation::WriteRegister { address, word } => {
                let (lo, hi) = split(*word);
                proof {
                    crate::bits::lemma_join_split(*word);
                }
                Some(Self::write_register(*address, [lo, hi]))
            },
            Operation::WriteFrame { control } => Some(
                Transfer { write: tx_frame(*control, frame), read: 0 },
            ),
            Operation::ReadFrame { byte_count } => Some(Self::read_frame(*byte_count)),
            Operation::Delay { .. } => None,
            Operation::ReleaseReset => None,
        }
    }

    /// Reads the reply to `op` out of the bytes `data` that came back, and
    /// for a frame read copies the payload to the front of `rx_buf`.
    pub fn reply(op: &Operation, data: &[u8], rx_buf: &mut [u8]) -> (r: Reply)
        requires
            Self::decodable(*op, data@, old(rx_buf)@.len() as int),
        ensures
            r == Self::decoded(*op, data@),
            final(rx_buf)@ == Self::stored(*op, data@, old(rx_buf)@),
            final(rx_buf)@.len() == old(rx_buf)@.len(),
    {
        match op {
            Operation::ReadRegister { .. } => Reply::Word(join(data[0], data[1])),
            Operation::ReadFrame { byte_count } => {
                let n: usize = (*byte_count - CRC_LEN) as usize;
                let mut i: usize = 0;
                while i < n
                    invariant
                        i <= n,
                        n == *byte_count - CRC_LEN,
                        RX_HEADER_LEN + n <= data@.len(),
                        n <= rx_buf@.len(),
                        rx_buf@.len() == old(rx_buf)@.len(),
                        rx_buf@ == data@.subrange(RX_HEADER_LEN as int, RX_HEADER_LEN + i)
                            + old(rx_buf)@.subrange(i as int, old(rx_buf)@.len() as int),
                    decreases n - i,
                {
                    rx_buf[i] = data[RX_HEADER_LEN + i];
                    i += 1;
                    assert(rx_buf@ =~= data@.subrange(RX_HEADER_LEN as int, RX_HEADER_LEN + i)
                        + old(rx_buf)@.subrange(i as int, old(rx_buf)@.len() as int));
                }
                Reply::Frame { status: join(data[4], data[5]), byte_count: join(data[6], data[7]) }
            },
            _ => Reply::Done,
        }
    }
}

} // verus!
