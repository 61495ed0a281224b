use embedded_hal::spi::ErrorKind;
use ksz8851snl::bus::{Operation, Reply, Step};
use ksz8851snl::chip::{Chip, FrameCount, GetMac, Init, LinkQuery, ReadyTx, Rx, SetMac, Tx};
use ksz8851snl::codec::Codec;
use ksz8851snl::error::{Error, LinkState};
use ksz8851snl::frame::TXCtrlWord;

const GRR: u8 = 0x26;
const MBIR: u8 = 0x24;
const TXCR: u8 = 0x70;
const RXCR1: u8 = 0x74;
const RXCR2: u8 = 0x76;
const TXMIR: u8 = 0x78;
const RXFHSR: u8 = 0x7C;
const RXFHBCR: u8 = 0x7E;
const TXQCR: u8 = 0x80;
const RXQCR: u8 = 0x82;
const TXFDPR: u8 = 0x84;
const RXFDPR: u8 = 0x86;
const RXDTTR: u8 = 0x8C;
const IER: u8 = 0x90;
const RXFCTR: u8 = 0x9C;
const TXNTFSR: u8 = 0x9E;
const CIDER: u8 = 0xC0;
const P1CR: u8 = 0xF6;
const P1SR: u8 = 0xF8;

/// A chip that keeps what is written to its registers, remembers every
/// operation, and fails the operation with the index `fail_at`.
struct Sim {
    regs: [u16; 256],
    log: Vec<Operation>,
    fail_at: Option<usize>,
}

impl Sim {
    fn new() -> Sim {
        let mut regs = [0u16; 256];
        regs[CIDER as usize] = 0x8872;
        Sim { regs, log: Vec::new(), fail_at: None }
    }

    fn with(mut self, address: u8, word: u16) -> Sim {
        self.regs[address as usize] = word;
        self
    }

    fn failing_at(mut self, index: usize) -> Sim {
        self.fail_at = Some(index);
        self
    }

    fn answer(&mut self, op: Operation) -> Reply {
        let index = self.log.len();
        self.log.push(op);
        if self.fail_at == Some(index) {
            return Reply::Failed(ErrorKind::Overrun);
        }
        match op {
            Operation::ReadRegister { address } => Reply::Word(self.regs[address as usize]),
            Operation::WriteRegister { address, word } => {
                self.regs[address as usize] = word;
                Reply::Done
            }
            Operation::ReadFrame { .. } => Reply::Frame {
                status: self.regs[RXFHSR as usize],
                byte_count: self.regs[RXFHBCR as usize],
            },
            _ => Reply::Done,
        }
    }

    fn writes(&self) -> Vec<(u8, u16)> {
        let mut out = Vec::new();
        for op in &self.log {
            if let Operation::WriteRegister { address, word } = op {
                out.push((*address, *word));
            }
        }
        out
    }
}

fn read(address: u8) -> Operation {
    Operation::ReadRegister { address }
}

fn write(address: u8, word: u16) -> Operation {
    Operation::WriteRegister { address, word }
}

fn run_init(sim: &mut Sim, mut op: Init) -> Result<(), Error> {
    loop {
        match op.poll() {
            Step::Ready(result) => return result,
            Step::Pending(operation) => {
                let reply = sim.answer(operation);
                assert!(op.accepts(&reply));
                op.advance(reply);
            }
        }
    }
}

fn run_set_mac(sim: &mut Sim, mut op: SetMac) -> Result<(), Error> {
    loop {
        match op.poll() {
            Step::Ready(result) => return result,
            Step::Pending(operation) => {
                let reply = sim.answer(operation);
                assert!(op.accepts(&reply));
                op.advance(reply);
            }
        }
    }
}

fn run_get_mac(sim: &mut Sim, mut op: GetMac) -> Result<[u8; 6], Error> {
    loop {
        match op.poll() {
            Step::Ready(result) => return result,
            Step::Pending(operation) => {
                let reply = sim.answer(operation);
                assert!(op.accepts(&reply));
                op.advance(reply);
            }
        }
    }
}

fn run_link(sim: &mut Sim, mut op: LinkQuery) -> Result<LinkState, Error> {
    loop {
        match op.poll() {
            Step::Ready(result) => return result,
            Step::Pending(operation) => {
                let reply = sim.answer(operation);
                assert!(op.accepts(&reply));
                op.advance(reply);
            }
        }
    }
}

fn run_count(sim: &mut Sim, mut op: FrameCount) -> Result<u8, Error> {
    loop {
        match op.poll() {
            Step::Ready(result) => return result,
            Step::Pending(operation) => {
                let reply = sim.answer(operation);
                assert!(op.accepts(&reply));
                op.advance(reply);
            }
        }
    }
}

fn run_ready_tx(sim: &mut Sim, mut op: ReadyTx) -> Result<bool, Error> {
    loop {
        match op.poll() {
            Step::Ready(result) => return result,
            Step::Pending(operation) => {
                let reply = sim.answer(operation);
                assert!(op.accepts(&reply));
                op.advance(reply);
            }
        }
    }
}

fn run_tx(sim: &mut Sim, chip: &mut Chip, mut op: Tx) -> Result<(), Error> {
    loop {
        match op.poll() {
            Step::Ready(result) => return result,
            Step::Pending(operation) => {
                let reply = sim.answer(operation);
                assert!(op.accepts(&reply));
                op.advance(chip, reply);
            }
        }
    }
}

fn run_rx(sim: &mut Sim, mut op: Rx) -> Result<usize, Error> {
    loop {
        match op.poll() {
            Step::Ready(result) => return result,
            Step::Pending(operation) => {
                let reply = sim.answer(operation);
                assert!(op.accepts(&reply));
                op.advance(reply);
            }
        }
    }
}

#[test]
fn init_brings_a_good_chip_up() {
    let mut sim = Sim::new();
    assert_eq!(run_init(&mut sim, Chip::new().init(false)), Ok(()));
    assert_eq!(
        sim.log,
        vec![
            write(GRR, 0x0001),
            Operation::Delay { millis: 10 },
            write(GRR, 0x0000),
            Operation::Delay { millis: 10 },
            read(CIDER),
            read(MBIR),
            read(TXFDPR),
            write(TXFDPR, 0x4000),
            read(TXCR),
            write(TXCR, 0x0006),
            write(RXDTTR, 1000),
            read(RXFDPR),
            write(RXFDPR, 0x4000),
            read(RXQCR),
            write(RXQCR, 0x0090),
            read(RXCR1),
            write(RXCR1, 0x0020),
            read(RXCR2),
            write(RXCR2, 0x009E),
            read(IER),
            write(IER, 0xE842),
            read(P1CR),
            write(P1CR, 0x8000),
            read(TXQCR),
            write(TXQCR, 0x0000),
            read(TXCR),
            write(TXCR, 0x0007),
            read(RXCR1),
            write(RXCR1, 0x0021),
        ]
    );
}

#[test]
fn init_writes_the_settings_in_order_and_enables_last() {
    let mut sim = Sim::new();
    assert_eq!(run_init(&mut sim, Chip::new().init(false)), Ok(()));
    let addresses: Vec<u8> = sim.writes().iter().map(|w| w.0).collect();
    assert_eq!(
        addresses,
        vec![GRR, GRR, TXFDPR, TXCR, RXDTTR, RXFDPR, RXQCR, RXCR1, RXCR2, IER, P1CR, TXQCR, TXCR, RXCR1]
    );
    assert_eq!(sim.regs[TXCR as usize] & 1, 1);
    assert_eq!(sim.regs[RXCR1 as usize] & 1, 1);
}

#[test]
fn init_keeps_what_the_chip_holds_in_other_fields() {
    let mut sim = Sim::new()
        .with(TXFDPR, 0x07FF)
        .with(TXCR, 0xFFF8)
        .with(RXFDPR, 0x8123)
        .with(RXQCR, 0xFF6F)
        .with(RXCR1, 0xFFFE)
        .with(RXCR2, 0xFF01)
        .with(IER, 0x0001)
        .with(P1CR, 0x00FF)
        .with(TXQCR, 0xFFFF);
    assert_eq!(run_init(&mut sim, Chip::new().init(false)), Ok(()));
    assert_eq!(sim.regs[TXFDPR as usize], 0x47FF);
    assert_eq!(sim.regs[TXCR as usize], 0xFE97);
    assert_eq!(sim.regs[RXDTTR as usize], 1000);
    assert_eq!(sim.regs[RXFDPR as usize], 0xC123);
    assert_eq!(sim.regs[RXQCR as usize], 0xFDFF);
    assert_eq!(sim.regs[RXCR1 as usize], 0x8B7F);
    assert_eq!(sim.regs[RXCR2 as usize], 0xFF9F);
    assert_eq!(sim.regs[IER as usize], 0xE843);
    assert_eq!(sim.regs[P1CR as usize], 0x80FF);
    assert_eq!(sim.regs[TXQCR as usize], 0xFFFB);
}

#[test]
fn init_receives_broadcast_frames_where_asked_to() {
    let mut quiet = Sim::new().with(RXCR1, 0x0080);
    assert_eq!(run_init(&mut quiet, Chip::new().init(false)), Ok(()));
    assert_eq!(quiet.regs[RXCR1 as usize], 0x0021);
    let mut open = Sim::new();
    assert_eq!(run_init(&mut open, Chip::new().init(true)), Ok(()));
    assert_eq!(open.regs[RXCR1 as usize], 0x00A1);
}

#[test]
fn init_refuses_a_chip_of_another_family() {
    let mut sim = Sim::new().with(CIDER, 0x0000);
    assert_eq!(
        run_init(&mut sim, Chip::new().init(false)),
        Err(Error::BadChipId {
            expected_family: 0x88,
            actual_family: 0x00,
            expected_chip: 0x7,
            actual_chip: 0x0,
        })
    );
    assert_eq!(sim.log.last(), Some(&read(CIDER)));
    assert_eq!(sim.log.len(), 5);
}

#[test]
fn init_refuses_another_chip_of_the_family() {
    let mut sim = Sim::new().with(CIDER, 0x8862);
    assert_eq!(
        run_init(&mut sim, Chip::new().init(false)),
        Err(Error::BadChipId {
            expected_family: 0x88,
            actual_family: 0x88,
            expected_chip: 0x7,
            actual_chip: 0x6,
        })
    );
}

#[test]
fn init_accepts_every_revision() {
    for revision in 0..8u16 {
        let mut sim = Sim::new().with(CIDER, 0x8870 | (revision << 1) | 1);
        assert_eq!(run_init(&mut sim, Chip::new().init(false)), Ok(()));
    }
}

#[test]
fn init_reports_a_failed_receive_memory() {
    let mut sim = Sim::new().with(MBIR, 0x0008);
    assert_eq!(
        run_init(&mut sim, Chip::new().init(false)),
        Err(Error::FailedBuiltInSelfTest { rx_bist_failed: true, tx_bist_failed: false })
    );
    assert_eq!(sim.log.last(), Some(&read(MBIR)));
}

#[test]
fn init_reports_a_failed_transmit_memory() {
    let mut sim = Sim::new().with(MBIR, 0x0800);
    assert_eq!(
        run_init(&mut sim, Chip::new().init(false)),
        Err(Error::FailedBuiltInSelfTest { rx_bist_failed: false, tx_bist_failed: true })
    );
    let mut both = Sim::new().with(MBIR, 0x1818);
    assert_eq!(
        run_init(&mut both, Chip::new().init(false)),
        Err(Error::FailedBuiltInSelfTest { rx_bist_failed: true, tx_bist_failed: true })
    );
}

#[test]
fn init_stops_at_the_first_bus_error() {
    for index in [0usize, 2, 4, 5, 6, 7, 10, 20, 28] {
        let mut sim = Sim::new().failing_at(index);
        assert_eq!(
            run_init(&mut sim, Chip::new().init(false)),
            Err(Error::SpiError(ErrorKind::Overrun))
        );
        assert_eq!(sim.log.len(), index + 1);
    }
}

#[test]
fn a_wait_cannot_fail_on_the_bus() {
    let mut op = Chip::new().init(false);
    op.advance(Reply::Done);
    assert_eq!(op.poll(), Step::Pending(Operation::Delay { millis: 10 }));
    assert!(!op.accepts(&Reply::Failed(ErrorKind::Other)));
    assert!(!op.accepts(&Reply::Word(0)));
    assert!(op.accepts(&Reply::Done));
}

#[test]
fn an_operation_that_has_ended_takes_no_reply() {
    let mut sim = Sim::new();
    let mut op = Chip::new().link_state();
    let reply = sim.answer(read(P1SR));
    op.advance(reply);
    assert_eq!(op.poll(), Step::Ready(Ok(LinkState::Down)));
    assert!(!op.accepts(&Reply::Done));
    assert!(!op.accepts(&Reply::Word(0)));
    assert!(!op.accepts(&Reply::Failed(ErrorKind::Other)));
}

#[test]
fn a_read_is_answered_by_a_word_only() {
    let op = Chip::new().get_mac();
    assert!(op.accepts(&Reply::Word(0x1234)));
    assert!(op.accepts(&Reply::Failed(ErrorKind::ModeFault)));
    assert!(!op.accepts(&Reply::Done));
    assert!(!op.accepts(&Reply::Frame { status: 0, byte_count: 0 }));
    let op = Chip::new().set_mac([0; 6]);
    assert!(op.accepts(&Reply::Done));
    assert!(op.accepts(&Reply::Failed(ErrorKind::ModeFault)));
    assert!(!op.accepts(&Reply::Word(0)));
}

#[test]
fn set_mac_writes_three_registers() {
    let mut sim = Sim::new();
    let mac = [0x01, 0x23, 0x45, 0x67, 0x89, 0xAB];
    assert_eq!(run_set_mac(&mut sim, Chip::new().set_mac(mac)), Ok(()));
    assert_eq!(sim.log, vec![write(0x14, 0x0123), write(0x12, 0x4567), write(0x10, 0x89AB)]);
}

#[test]
fn get_mac_reads_three_registers() {
    let mut sim = Sim::new().with(0x14, 0xDEAD).with(0x12, 0xBEEF).with(0x10, 0x0042);
    assert_eq!(
        run_get_mac(&mut sim, Chip::new().get_mac()),
        Ok([0xDE, 0xAD, 0xBE, 0xEF, 0x00, 0x42])
    );
    assert_eq!(sim.log, vec![read(0x14), read(0x12), read(0x10)]);
}

#[test]
fn the_address_that_was_set_is_the_address_that_is_read() {
    let macs = [
        [0u8; 6],
        [0xFF; 6],
        [0x02, 0x00, 0x00, 0x12, 0x34, 0x56],
        [0x01, 0x02, 0x03, 0x04, 0x05, 0x06],
        [0x80, 0x7F, 0x00, 0xFF, 0x55, 0xAA],
    ];
    for mac in macs {
        let mut sim = Sim::new();
        let chip = Chip::new();
        assert_eq!(run_set_mac(&mut sim, chip.set_mac(mac)), Ok(()));
        assert_eq!(run_get_mac(&mut sim, chip.get_mac()), Ok(mac));
    }
}

#[test]
fn the_address_operations_report_bus_errors() {
    for index in 0..3usize {
        let mut sim = Sim::new().failing_at(index);
        assert_eq!(
            run_set_mac(&mut sim, Chip::new().set_mac([1, 2, 3, 4, 5, 6])),
            Err(Error::SpiError(ErrorKind::Overrun))
        );
        assert_eq!(sim.log.len(), index + 1);
        let mut sim = Sim::new().failing_at(index);
        assert_eq!(
            run_get_mac(&mut sim, Chip::new().get_mac()),
            Err(Error::SpiError(ErrorKind::Overrun))
        );
    }
}

#[test]
fn link_state_follows_the_link_good_bit() {
    let mut up = Sim::new().with(P1SR, 0x0020);
    assert_eq!(run_link(&mut up, Chip::new().link_state()), Ok(LinkState::Up));
    assert_eq!(up.log, vec![read(P1SR)]);
    let mut down = Sim::new().with(P1SR, 0xFFDF);
    assert_eq!(run_link(&mut down, Chip::new().link_state()), Ok(LinkState::Down));
    let mut broken = Sim::new().failing_at(0);
    assert_eq!(
        run_link(&mut broken, Chip::new().link_state()),
        Err(Error::SpiError(ErrorKind::Overrun))
    );
}

#[test]
fn rx_frames_available_reads_the_frame_count() {
    let mut sim = Sim::new().with(RXFCTR, 0x0500);
    assert_eq!(run_count(&mut sim, Chip::new().rx_frames_available()), Ok(5));
    assert_eq!(sim.log, vec![read(RXFCTR)]);
    let mut none = Sim::new().with(RXFCTR, 0x00FF);
    assert_eq!(run_count(&mut none, Chip::new().rx_frames_available()), Ok(0));
    let mut broken = Sim::new().failing_at(0);
    assert_eq!(
        run_count(&mut broken, Chip::new().rx_frames_available()),
        Err(Error::SpiError(ErrorKind::Overrun))
    );
}

#[test]
fn ready_tx_finds_room_for_64_bytes_in_1200() {
    let mut sim = Sim::new().with(TXMIR, 1200);
    assert_eq!(run_ready_tx(&mut sim, Chip::new().ready_tx(64)), Ok(true));
    assert_eq!(sim.log, vec![read(TXMIR)]);
}

#[test]
fn ready_tx_finds_no_room_for_1400_bytes_in_100() {
    let mut sim = Sim::new().with(TXMIR, 100);
    assert_eq!(run_ready_tx(&mut sim, Chip::new().ready_tx(1400)), Ok(false));
    assert_eq!(sim.log, vec![read(TXMIR), write(TXNTFSR, 1404), write(TXQCR, 0x0002)]);
}

#[test]
fn ready_tx_counts_four_bytes_on_top_of_the_frame() {
    let mut exact = Sim::new().with(TXMIR, 104);
    assert_eq!(run_ready_tx(&mut exact, Chip::new().ready_tx(100)), Ok(true));
    let mut short = Sim::new().with(TXMIR, 103);
    assert_eq!(run_ready_tx(&mut short, Chip::new().ready_tx(100)), Ok(false));
    assert_eq!(short.regs[TXNTFSR as usize], 104);
    let mut empty = Sim::new().with(TXMIR, 4);
    assert_eq!(run_ready_tx(&mut empty, Chip::new().ready_tx(0)), Ok(true));
}

#[test]
fn ready_tx_ignores_the_reserved_bits_of_the_memory_register() {
    let mut sim = Sim::new().with(TXMIR, 0xE000 | 50);
    assert_eq!(run_ready_tx(&mut sim, Chip::new().ready_tx(100)), Ok(false));
}

#[test]
fn ready_tx_refuses_more_than_2000_bytes() {
    let mut sim = Sim::new().with(TXMIR, 0x1FFF);
    assert_eq!(
        run_ready_tx(&mut sim, Chip::new().ready_tx(2001)),
        Err(Error::TxPacketTooBig { size: 2001, max: 2000 })
    );
    assert_eq!(
        run_ready_tx(&mut sim, Chip::new().ready_tx(usize::MAX)),
        Err(Error::TxPacketTooBig { size: usize::MAX, max: 2000 })
    );
    assert!(sim.log.is_empty());
    assert_eq!(run_ready_tx(&mut sim, Chip::new().ready_tx(2000)), Ok(true));
}

#[test]
fn ready_tx_reports_bus_errors() {
    for index in 0..3usize {
        let mut sim = Sim::new().with(TXMIR, 0).failing_at(index);
        assert_eq!(
            run_ready_tx(&mut sim, Chip::new().ready_tx(10)),
            Err(Error::SpiError(ErrorKind::Overrun))
        );
    }
}

#[test]
fn tx_hands_the_frame_over_between_masked_interrupts() {
    let mut sim = Sim::new().with(IER, 0xE842).with(RXQCR, 0x0090).with(TXQCR, 0x0000);
    let mut chip = Chip::new();
    let op = chip.tx();
    assert_eq!(run_tx(&mut sim, &mut chip, op), Ok(()));
    assert_eq!(
        sim.log,
        vec![
            read(IER),
            write(IER, 0x0000),
            read(RXQCR),
            write(RXQCR, 0x0098),
            Operation::WriteFrame {
                control: TXCtrlWord { transmit_interrupt_on_completion: true, frame_id: 0 }
            },
            read(RXQCR),
            write(RXQCR, 0x0090),
            read(TXQCR),
            write(TXQCR, 0x0001),
            write(IER, 0xE842),
        ]
    );
    assert_eq!(chip.next_frame_id, 1);
}

#[test]
fn tx_of_64_bytes_is_one_transfer_of_72_bytes() {
    let mut sim = Sim::new().with(TXMIR, 1200);
    let mut chip = Chip::new();
    assert_eq!(run_ready_tx(&mut sim, chip.ready_tx(61)), Ok(true));
    let op = chip.tx();
    assert_eq!(run_tx(&mut sim, &mut chip, op), Ok(()));
    let frame = [0xABu8; 61];
    let mut transfers = 0;
    for operation in &sim.log {
        if let Operation::WriteFrame { .. } = operation {
            let transfer = Codec::request(operation, &frame).unwrap();
            assert_eq!(transfer.write.len(), 1 + 2 + 2 + 61 + 3);
            assert_eq!(transfer.read, 0);
            transfers += 1;
        }
    }
    assert_eq!(transfers, 1);
    assert_eq!(sim.regs[TXQCR as usize] & 1, 1);
}

#[test]
fn the_frame_id_counts_modulo_32() {
    let mut sim = Sim::new();
    let mut chip = Chip::new();
    for n in 0..100u32 {
        assert_eq!(chip.next_frame_id as u32, n % 32);
        let op = chip.tx();
        assert_eq!(op.frame_id as u32, n % 32);
        assert_eq!(run_tx(&mut sim, &mut chip, op), Ok(()));
    }
    assert_eq!(chip.next_frame_id, 100 % 32);
}

#[test]
fn the_frame_id_after_31_is_0() {
    let mut chip = Chip { next_frame_id: 30 };
    chip.advance_frame_id();
    assert_eq!(chip.next_frame_id, 31);
    chip.advance_frame_id();
    assert_eq!(chip.next_frame_id, 0);
    chip.advance_frame_id();
    assert_eq!(chip.next_frame_id, 1);
}

#[test]
fn a_frame_that_was_not_written_keeps_its_id() {
    for index in 0..5usize {
        let mut sim = Sim::new().failing_at(index);
        let mut chip = Chip { next_frame_id: 9 };
        let op = chip.tx();
        assert_eq!(run_tx(&mut sim, &mut chip, op), Err(Error::SpiError(ErrorKind::Overrun)));
        assert_eq!(chip.next_frame_id, 9);
    }
    for index in 5..10usize {
        let mut sim = Sim::new().failing_at(index);
        let mut chip = Chip { next_frame_id: 9 };
        let op = chip.tx();
        assert_eq!(run_tx(&mut sim, &mut chip, op), Err(Error::SpiError(ErrorKind::Overrun)));
        assert_eq!(chip.next_frame_id, 10);
    }
}

#[test]
fn rx_delivers_60_bytes_of_a_64_byte_frame() {
    let mut sim = Sim::new()
        .with(IER, 0xC842)
        .with(RXFHSR, 0x8020)
        .with(RXFHBCR, 64)
        .with(RXFDPR, 0x4123)
        .with(RXQCR, 0x0090);
    assert_eq!(run_rx(&mut sim, Chip::new().rx(1514)), Ok(60));
    assert_eq!(
        sim.log,
        vec![
            read(IER),
            write(IER, 0x0000),
            read(RXFHSR),
            read(RXFHBCR),
            read(RXFDPR),
            write(RXFDPR, 0x4000),
            read(RXQCR),
            write(RXQCR, 0x0098),
            Operation::ReadFrame { byte_count: 64 },
            read(RXQCR),
            write(RXQCR, 0x0090),
            write(IER, 0xC842),
        ]
    );
}

#[test]
fn rx_copies_exactly_the_payload_upstream() {
    let mut sim = Sim::new().with(RXFHSR, 0x8000).with(RXFHBCR, 64);
    let mut op = Chip::new().rx(1514);
    let mut rx_buf = vec![0xEEu8; 1514];
    let mut data = vec![0u8; 8 + 64];
    data[4] = 0x00;
    data[5] = 0x80;
    data[6] = 64;
    for i in 0..60 {
        data[8 + i] = i as u8 + 1;
    }
    for i in 60..64 {
        data[8 + i] = 0xCC;
    }
    let result = loop {
        match op.poll() {
            Step::Ready(result) => break result,
            Step::Pending(operation) => {
                let reply = match operation {
                    Operation::ReadFrame { byte_count } => {
                        assert_eq!(Codec::read_frame(byte_count).read, data.len());
                        sim.log.push(operation);
                        Codec::reply(&operation, &data, &mut rx_buf)
                    }
                    other => sim.answer(other),
                };
                assert!(op.accepts(&reply));
                op.advance(reply);
            }
        }
    };
    assert_eq!(result, Ok(60));
    for i in 0..60 {
        assert_eq!(rx_buf[i], i as u8 + 1);
    }
    assert!(rx_buf[60..].iter().all(|b| *b == 0xEE));
}

#[test]
fn rx_delivers_the_byte_count_less_four() {
    for count in [4u16, 5, 64, 65, 66, 67, 1000, 1514] {
        let mut sim = Sim::new().with(RXFHSR, 0x8000).with(RXFHBCR, count);
        assert_eq!(run_rx(&mut sim, Chip::new().rx(1514)), Ok(count as usize - 4));
    }
}

#[test]
fn rx_drops_a_frame_with_a_wrong_check_sequence() {
    let mut sim = Sim::new().with(IER, 0xC842).with(RXFHSR, 0x8001).with(RXFHBCR, 64).with(RXQCR, 0x0090);
    assert_eq!(run_rx(&mut sim, Chip::new().rx(1514)), Err(Error::RxFrameInvalid));
    assert_eq!(
        sim.log,
        vec![
            read(IER),
            write(IER, 0x0000),
            read(RXFHSR),
            read(RXFHBCR),
            read(RXQCR),
            write(RXQCR, 0x0091),
        ]
    );
}

#[test]
fn rx_drops_every_kind_of_damaged_frame() {
    for fault in [0x0001u16, 0x0002, 0x0004, 0x0010, 0x0400, 0x0800, 0x1000, 0x2000] {
        let mut sim = Sim::new().with(RXFHSR, 0x8000 | fault).with(RXFHBCR, 64);
        assert_eq!(run_rx(&mut sim, Chip::new().rx(1514)), Err(Error::RxFrameInvalid));
        assert_eq!(sim.regs[RXQCR as usize] & 1, 1);
        assert!(!sim.log.iter().any(|op| matches!(op, Operation::ReadFrame { .. })));
    }
    for harmless in [0x0008u16, 0x0020, 0x0040, 0x0080, 0x0100, 0x0200, 0x4000] {
        let mut sim = Sim::new().with(RXFHSR, 0x8000 | harmless).with(RXFHBCR, 64);
        assert_eq!(run_rx(&mut sim, Chip::new().rx(1514)), Ok(60));
    }
}

#[test]
fn rx_finds_no_frame_where_none_is_valid() {
    let mut sim = Sim::new().with(RXFHSR, 0x0000).with(RXFHBCR, 64);
    assert_eq!(run_rx(&mut sim, Chip::new().rx(1514)), Err(Error::RxNoFrameAvailable));
    assert_eq!(sim.log, vec![read(IER), write(IER, 0x0000), read(RXFHSR), read(RXFHBCR)]);
    let mut damaged = Sim::new().with(RXFHSR, 0x0001);
    assert_eq!(run_rx(&mut damaged, Chip::new().rx(1514)), Err(Error::RxNoFrameAvailable));
}

#[test]
fn rx_reports_bus_errors() {
    for index in 0..12usize {
        let mut sim = Sim::new().with(RXFHSR, 0x8000).with(RXFHBCR, 64).failing_at(index);
        assert_eq!(run_rx(&mut sim, Chip::new().rx(1514)), Err(Error::SpiError(ErrorKind::Overrun)));
        assert_eq!(sim.log.len(), index + 1);
    }
}

fn rx_at_the_byte_count(capacity: usize, status: u16) -> Rx {
    let mut op = Chip::new().rx(capacity);
    op.advance(Reply::Word(0xC842));
    op.advance(Reply::Done);
    op.advance(Reply::Word(status));
    op
}

#[test]
fn rx_cannot_go_on_with_a_frame_longer_than_the_buffer() {
    let op = rx_at_the_byte_count(100, 0x8000);
    assert!(op.accepts(&Reply::Word(100)));
    assert!(!op.accepts(&Reply::Word(101)));
    assert!(!op.accepts(&Reply::Word(3)));
    assert!(op.accepts(&Reply::Word(4)));
    assert!(op.accepts(&Reply::Word(0xF000 | 100)));
}

#[test]
fn rx_does_not_measure_a_frame_that_it_will_not_read() {
    let absent = rx_at_the_byte_count(100, 0x0000);
    assert!(absent.accepts(&Reply::Word(4000)));
    let damaged = rx_at_the_byte_count(100, 0x8001);
    assert!(damaged.accepts(&Reply::Word(4000)));
}

#[test]
fn rx_cannot_go_on_where_the_frame_header_differs_from_the_registers() {
    let mut op = rx_at_the_byte_count(1514, 0x8020);
    op.advance(Reply::Word(64));
    op.advance(Reply::Word(0));
    op.advance(Reply::Done);
    op.advance(Reply::Word(0));
    op.advance(Reply::Done);
    assert_eq!(op.poll(), Step::Pending(Operation::ReadFrame { byte_count: 64 }));
    assert!(op.accepts(&Reply::Frame { status: 0x8020, byte_count: 64 }));
    assert!(op.accepts(&Reply::Frame { status: 0x8020, byte_count: 0x3000 | 64 }));
    assert!(!op.accepts(&Reply::Frame { status: 0x8021, byte_count: 64 }));
    assert!(!op.accepts(&Reply::Frame { status: 0x8020, byte_count: 65 }));
    assert!(!op.accepts(&Reply::Done));
    assert!(!op.accepts(&Reply::Word(64)));
    assert!(op.accepts(&Reply::Failed(ErrorKind::FrameFormat)));
}

#[test]
fn a_bus_error_keeps_its_kind() {
    for kind in [
        ErrorKind::Overrun,
        ErrorKind::ModeFault,
        ErrorKind::FrameFormat,
        ErrorKind::ChipSelectFault,
        ErrorKind::Other,
    ] {
        let mut op = Chip::new().link_state();
        op.advance(Reply::Failed(kind));
        assert_eq!(op.poll(), Step::Ready(Err(Error::SpiError(kind))));
        assert_eq!(Error::from(kind), Error::SpiError(kind));
    }
}
