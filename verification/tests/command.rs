use ksz8851snl::command::{byte_enable, frame_cmd, reg_cmd, Opcode};

#[test]
fn read_command_for_the_low_half_of_a_word() {
    assert_eq!(reg_cmd(Opcode::RegRead, 0x00, 2), [0x0C, 0x00]);
}

#[test]
fn read_command_for_the_high_half_of_a_word() {
    assert_eq!(reg_cmd(Opcode::RegRead, 0x02, 2), [0x30, 0x00]);
}

#[test]
fn read_command_for_the_chip_id_register() {
    assert_eq!(reg_cmd(Opcode::RegRead, 0xC0, 2), [0x0F, 0x00]);
}

#[test]
fn write_command_carries_the_write_opcode() {
    assert_eq!(reg_cmd(Opcode::RegWrite, 0x90, 2), [0x4E, 0x40]);
    assert_eq!(reg_cmd(Opcode::RegWrite, 0x92, 2), [0x72, 0x40]);
}

#[test]
fn byte_enable_selects_one_half_or_nothing() {
    assert_eq!(byte_enable(0x10, 2), Some(0b0011));
    assert_eq!(byte_enable(0x12, 2), Some(0b1100));
    assert_eq!(byte_enable(0x11, 2), None);
    assert_eq!(byte_enable(0x13, 2), None);
    assert_eq!(byte_enable(0x10, 1), None);
    assert_eq!(byte_enable(0x10, 4), None);
}

#[test]
fn bulk_command_is_the_opcode_alone() {
    assert_eq!(frame_cmd(Opcode::RXRead), 0x80);
    assert_eq!(frame_cmd(Opcode::TXWrite), 0xC0);
}
