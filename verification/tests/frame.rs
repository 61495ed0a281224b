use ksz8851snl::bus::{Operation, Reply};
use ksz8851snl::codec::{Codec, Transfer};
use ksz8851snl::frame::{pad_len, tx_frame, TXCtrlWord, MTU};

fn control(frame_id: u8) -> TXCtrlWord {
    TXCtrlWord { transmit_interrupt_on_completion: true, frame_id }
}

#[test]
fn the_default_control_word_is_all_zero() {
    let word = TXCtrlWord::default();
    assert!(!word.transmit_interrupt_on_completion);
    assert_eq!(word.frame_id, 0);
    assert_eq!(word.into_bytes(), [0x00, 0x00]);
}

#[test]
fn control_word_bytes() {
    assert_eq!(control(0).into_bytes(), [0x00, 0x80]);
    assert_eq!(control(5).into_bytes(), [0x05, 0x80]);
    assert_eq!(control(31).into_bytes(), [0x1F, 0x80]);
    assert_eq!(control(63).into_bytes(), [0x3F, 0x80]);
    assert_eq!(control(64).into_bytes(), [0x00, 0x80]);
    assert_eq!(
        TXCtrlWord { transmit_interrupt_on_completion: false, frame_id: 9 }.into_bytes(),
        [0x09, 0x00]
    );
}

#[test]
fn padding_fills_up_to_a_multiple_of_four() {
    assert_eq!(pad_len(0), 0);
    assert_eq!(pad_len(1), 3);
    assert_eq!(pad_len(2), 2);
    assert_eq!(pad_len(3), 1);
    assert_eq!(pad_len(4), 0);
    assert_eq!(pad_len(61), 3);
    assert_eq!(pad_len(64), 0);
    assert_eq!(pad_len(1514), 2);
    assert_eq!(pad_len(2000), 0);
}

#[test]
fn the_mtu_is_a_full_ethernet_frame() {
    assert_eq!(MTU, 1514);
}

#[test]
fn a_three_byte_frame_on_the_bus() {
    let bytes = tx_frame(control(7), &[0xAA, 0xBB, 0xCC]);
    assert_eq!(bytes, vec![0xC0, 0x07, 0x80, 0x03, 0x00, 0xAA, 0xBB, 0xCC, 0x00]);
}

#[test]
fn the_length_field_is_little_endian() {
    let frame = vec![0x11u8; 0x0203];
    let bytes = tx_frame(control(0), &frame);
    assert_eq!(&bytes[..5], &[0xC0, 0x00, 0x80, 0x03, 0x02]);
    assert_eq!(bytes.len(), 1 + 4 + 0x0203 + 1);
    assert_eq!(bytes[5 + 0x0203], 0);
}

#[test]
fn what_follows_the_command_byte_is_a_multiple_of_four() {
    for len in 1..=2000usize {
        let frame = vec![0x5Au8; len];
        let bytes = tx_frame(control((len % 32) as u8), &frame);
        let pad = (4 - len % 4) % 4;
        assert_eq!(bytes.len() - 1, 2 + 2 + len + pad);
        assert_eq!((bytes.len() - 1) % 4, 0);
        assert_eq!(&bytes[5..5 + len], &frame[..]);
        assert!(bytes[5 + len..].iter().all(|b| *b == 0));
    }
}

#[test]
fn a_64_byte_frame_takes_72_bytes_with_three_bytes_of_filling() {
    let frame = vec![0xEEu8; 61];
    assert_eq!(tx_frame(control(0), &frame).len(), 1 + 2 + 2 + 61 + 3);
    let frame = vec![0xEEu8; 64];
    assert_eq!(tx_frame(control(0), &frame).len(), 1 + 2 + 2 + 64);
}

#[test]
fn register_read_on_the_bus() {
    assert_eq!(Codec::read_register(0x90), Transfer { write: vec![0x0E, 0x40], read: 2 });
    assert_eq!(Codec::read_register(0x92), Transfer { write: vec![0x32, 0x40], read: 2 });
    assert_eq!(Codec::read_register(0xC0), Transfer { write: vec![0x0F, 0x00], read: 2 });
    assert_eq!(Codec::read_register(0xF8), Transfer { write: vec![0x0F, 0xE0], read: 2 });
}

#[test]
fn register_write_on_the_bus() {
    assert_eq!(
        Codec::write_register(0x90, [0x42, 0xE8]),
        Transfer { write: vec![0x4E, 0x40, 0x42, 0xE8], read: 0 }
    );
    assert_eq!(
        Codec::write_register(0x26, [0x01, 0x00]),
        Transfer { write: vec![0x70, 0x90, 0x01, 0x00], read: 0 }
    );
}

#[test]
fn frame_read_on_the_bus() {
    assert_eq!(Codec::read_frame(64), Transfer { write: vec![0x80], read: 8 + 64 });
    assert_eq!(Codec::read_frame(65), Transfer { write: vec![0x80], read: 8 + 65 + 3 });
    assert_eq!(Codec::read_frame(66), Transfer { write: vec![0x80], read: 8 + 66 + 2 });
    assert_eq!(Codec::read_frame(67), Transfer { write: vec![0x80], read: 8 + 67 + 1 });
    assert_eq!(Codec::read_frame(4), Transfer { write: vec![0x80], read: 12 });
}

#[test]
fn every_bus_operation_has_its_transfer() {
    let frame = [1u8, 2, 3, 4, 5];
    assert_eq!(
        Codec::request(&Operation::ReadRegister { address: 0x78 }, &frame),
        Some(Transfer { write: vec![0x0D, 0xE0], read: 2 })
    );
    assert_eq!(
        Codec::request(&Operation::WriteRegister { address: 0x9E, word: 1404 }, &frame),
        Some(Transfer { write: vec![0x72, 0x70, 0x7C, 0x05], read: 0 })
    );
    assert_eq!(
        Codec::request(&Operation::WriteFrame { control: control(2) }, &frame),
        Some(Transfer {
            write: vec![0xC0, 0x02, 0x80, 0x05, 0x00, 1, 2, 3, 4, 5, 0, 0, 0],
            read: 0
        })
    );
    assert_eq!(
        Codec::request(&Operation::ReadFrame { byte_count: 10 }, &frame),
        Some(Transfer { write: vec![0x80], read: 8 + 10 + 2 })
    );
    assert_eq!(Codec::request(&Operation::Delay { millis: 10 }, &frame), None);
    assert_eq!(Codec::request(&Operation::ReleaseReset, &frame), None);
}

#[test]
fn a_register_read_is_answered_with_its_word() {
    let mut rx_buf = [0x77u8; 4];
    let reply = Codec::reply(&Operation::ReadRegister { address: 0xC0 }, &[0x72, 0x88], &mut rx_buf);
    assert_eq!(reply, Reply::Word(0x8872));
    assert_eq!(rx_buf, [0x77; 4]);
}

#[test]
fn writes_and_waits_are_answered_with_nothing() {
    let mut rx_buf = [0x77u8; 4];
    let none: [u8; 0] = [];
    assert_eq!(
        Codec::reply(&Operation::WriteRegister { address: 0x90, word: 0 }, &none, &mut rx_buf),
        Reply::Done
    );
    assert_eq!(
        Codec::reply(&Operation::WriteFrame { control: control(0) }, &none, &mut rx_buf),
        Reply::Done
    );
    assert_eq!(Codec::reply(&Operation::Delay { millis: 10 }, &none, &mut rx_buf), Reply::Done);
    assert_eq!(Codec::reply(&Operation::ReleaseReset, &none, &mut rx_buf), Reply::Done);
    assert_eq!(rx_buf, [0x77; 4]);
}

#[test]
fn a_frame_read_stores_the_payload_without_the_check_sequence() {
    // four dummy bytes, status 0x8020, byte count 10, six bytes of payload,
    // the check sequence, two bytes of filling
    let data = [
        0xF0, 0xF1, 0xF2, 0xF3, 0x20, 0x80, 0x0A, 0x00, 1, 2, 3, 4, 5, 6, 0xC1, 0xC2, 0xC3, 0xC4,
        0xEE, 0xEF,
    ];
    let mut rx_buf = [0x77u8; 9];
    let reply = Codec::reply(&Operation::ReadFrame { byte_count: 10 }, &data, &mut rx_buf);
    assert_eq!(reply, Reply::Frame { status: 0x8020, byte_count: 10 });
    assert_eq!(rx_buf, [1, 2, 3, 4, 5, 6, 0x77, 0x77, 0x77]);
}

#[test]
fn a_frame_of_nothing_but_its_check_sequence_stores_nothing() {
    let data = [0, 0, 0, 0, 0x00, 0x80, 0x04, 0x00, 0xC1, 0xC2, 0xC3, 0xC4];
    let mut rx_buf = [0x77u8; 3];
    let reply = Codec::reply(&Operation::ReadFrame { byte_count: 4 }, &data, &mut rx_buf);
    assert_eq!(reply, Reply::Frame { status: 0x8000, byte_count: 4 });
    assert_eq!(rx_buf, [0x77; 3]);
}

#[test]
fn only_registers_at_even_addresses_have_a_form_on_the_bus() {
    let none: [u8; 0] = [];
    assert!(Codec::can_encode(&Operation::ReadRegister { address: 0x90 }, &none));
    assert!(Codec::can_encode(&Operation::ReadRegister { address: 0x92 }, &none));
    assert!(!Codec::can_encode(&Operation::ReadRegister { address: 0x91 }, &none));
    assert!(!Codec::can_encode(&Operation::WriteRegister { address: 0x93, word: 0 }, &none));
    assert!(Codec::can_encode(&Operation::WriteRegister { address: 0x00, word: 0 }, &none));
    assert!(Codec::can_encode(&Operation::ReadFrame { byte_count: 0 }, &none));
    assert!(Codec::can_encode(&Operation::Delay { millis: 1 }, &none));
    assert!(Codec::can_encode(&Operation::ReleaseReset, &none));
}

#[test]
fn a_frame_must_fit_its_length_field() {
    let op = Operation::WriteFrame { control: control(0) };
    assert!(Codec::can_encode(&op, &vec![0u8; 0]));
    assert!(Codec::can_encode(&op, &vec![0u8; 65535]));
    assert!(!Codec::can_encode(&op, &vec![0u8; 65536]));
}

#[test]
fn what_came_back_must_have_the_length_that_was_asked_for() {
    let buf = [0u8; 8];
    let read = Operation::ReadRegister { address: 0x90 };
    assert!(Codec::can_decode(&read, &[0, 0], &buf));
    assert!(!Codec::can_decode(&read, &[0], &buf));
    assert!(!Codec::can_decode(&read, &[0, 0, 0], &buf));
    let write = Operation::WriteRegister { address: 0x90, word: 0 };
    assert!(Codec::can_decode(&write, &[], &buf));
    assert!(!Codec::can_decode(&write, &[0], &buf));
    let frame = Operation::ReadFrame { byte_count: 10 };
    assert!(Codec::can_decode(&frame, &[0u8; 20], &buf));
    assert!(!Codec::can_decode(&frame, &[0u8; 18], &buf));
    assert!(!Codec::can_decode(&frame, &[0u8; 24], &buf));
}

#[test]
fn the_payload_of_a_frame_must_fit_the_buffer() {
    let frame = Operation::ReadFrame { byte_count: 12 };
    assert!(Codec::can_decode(&frame, &[0u8; 20], &[0u8; 8]));
    assert!(!Codec::can_decode(&frame, &[0u8; 20], &[0u8; 7]));
    let short = Operation::ReadFrame { byte_count: 3 };
    assert!(!Codec::can_decode(&short, &[0u8; 12], &[0u8; 8]));
    let empty = Operation::ReadFrame { byte_count: 4 };
    assert!(Codec::can_decode(&empty, &[0u8; 12], &[]));
}
