use embedded_hal::spi::ErrorKind;
use ksz8851snl::bus::{Operation, Reply};
use ksz8851snl::error::{Error, LinkState};
use ksz8851snl::frame::TXCtrlWord;
use ksz8851snl::runner::{Activity, Demand, Event, Fault, Notice, Runner};

const TXMIR: u8 = 0x78;
const RXFHSR: u8 = 0x7C;
const RXFHBCR: u8 = 0x7E;
const TXQCR: u8 = 0x80;
const RXQCR: u8 = 0x82;
const RXFDPR: u8 = 0x86;
const IER: u8 = 0x90;
const ISR: u8 = 0x92;
const RXFCTR: u8 = 0x9C;
const TXNTFSR: u8 = 0x9E;
const P1SR: u8 = 0xF8;

const RECEIVE_ENABLE: u16 = 0x2000;

/// A chip as bring-up leaves it. It keeps what is written to its registers,
/// except that a one written to the interrupt status clears that bit, and
/// remembers every operation.
struct Sim {
    regs: [u16; 256],
    log: Vec<Operation>,
    fail_at: Option<usize>,
}

impl Sim {
    fn new() -> Sim {
        let mut regs = [0u16; 256];
        regs[IER as usize] = 0xE842;
        regs[RXQCR as usize] = 0x0090;
        regs[TXMIR as usize] = 0x1800;
        Sim { regs, log: Vec::new(), fail_at: None }
    }

    fn set(&mut self, address: u8, word: u16) {
        self.regs[address as usize] = word;
    }

    fn get(&self, address: u8) -> u16 {
        self.regs[address as usize]
    }

    fn answer(&mut self, op: Operation) -> Reply {
        let index = self.log.len();
        self.log.push(op);
        if self.fail_at == Some(index) {
            return Reply::Failed(ErrorKind::ChipSelectFault);
        }
        match op {
            Operation::ReadRegister { address } => Reply::Word(self.regs[address as usize]),
            Operation::WriteRegister { address, word } => {
                if address == ISR {
                    self.regs[address as usize] &= !word;
                } else {
                    self.regs[address as usize] = word;
                }
                Reply::Done
            }
            Operation::ReadFrame { .. } => Reply::Frame {
                status: self.regs[RXFHSR as usize],
                byte_count: self.regs[RXFHBCR as usize],
            },
            _ => Reply::Done,
        }
    }

    fn receive_interrupt_enabled(&self) -> bool {
        self.get(IER) & RECEIVE_ENABLE != 0
    }
}

fn read(address: u8) -> Operation {
    Operation::ReadRegister { address }
}

fn write(address: u8, word: u16) -> Operation {
    Operation::WriteRegister { address, word }
}

/// Hands `event` to the loop and carries out bus operations until the loop
/// waits or stops. Returns what the loop told the network stack.
fn handle(runner: &mut Runner, sim: &mut Sim, event: Event) -> Vec<Notice> {
    let mut notices = Vec::new();
    assert!(runner.accepts(&event));
    if let Some(notice) = runner.advance(event) {
        notices.push(notice);
    }
    while let Demand::Bus(operation) = runner.poll() {
        let reply = Event::Reply(sim.answer(operation));
        assert!(runner.accepts(&reply));
        if let Some(notice) = runner.advance(reply) {
            notices.push(notice);
        }
        assert!(runner.is_wf());
    }
    notices
}

fn wait(transmit: bool, receive: bool) -> Demand {
    Demand::Wait { transmit, receive }
}

/// The loop with `frames` received frames pending, and the chip as the
/// receive interrupt leaves it.
fn with_frames_pending(frames: u8) -> (Runner, Sim) {
    let mut runner = Runner::new();
    let mut sim = Sim::new();
    sim.set(ISR, 0x2000);
    sim.set(RXFCTR, (frames as u16) << 8);
    sim.set(RXFHSR, 0x8020);
    sim.set(RXFHBCR, 64);
    handle(&mut runner, &mut sim, Event::Interrupt);
    sim.log.clear();
    (runner, sim)
}

#[test]
fn the_loop_starts_out_waiting_for_a_frame_to_send() {
    let runner = Runner::new();
    assert_eq!(runner.poll(), wait(true, false));
    assert_eq!(runner.chip.next_frame_id, 0);
    assert!(runner.tx_space_available);
    assert!(runner.tx_done);
    assert_eq!(runner.rx_pending, 0);
    assert!(runner.is_wf());
}

#[test]
fn a_tick_reads_the_port_status_once() {
    let mut runner = Runner::new();
    let mut sim = Sim::new();
    sim.set(P1SR, 0x0020);
    let before = runner;
    let notices = handle(&mut runner, &mut sim, Event::Tick);
    assert_eq!(sim.log, vec![read(P1SR)]);
    assert_eq!(notices, vec![Notice::LinkState(LinkState::Up)]);
    assert_eq!(runner, before);
    sim.set(P1SR, 0x0000);
    let notices = handle(&mut runner, &mut sim, Event::Tick);
    assert_eq!(notices, vec![Notice::LinkState(LinkState::Down)]);
    assert_eq!(sim.log.len(), 2);
    assert_eq!(runner, before);
}

#[test]
fn a_frame_with_room_is_sent_and_the_next_waits_for_the_interrupt() {
    let mut runner = Runner::new();
    let mut sim = Sim::new();
    sim.set(TXMIR, 1200);
    let notices = handle(&mut runner, &mut sim, Event::Transmit { len: 64 });
    assert_eq!(notices, vec![Notice::Transmitted]);
    assert_eq!(
        sim.log,
        vec![
            read(TXMIR),
            read(IER),
            write(IER, 0x0000),
            read(RXQCR),
            write(RXQCR, 0x0098),
            Operation::WriteFrame {
                control: TXCtrlWord { transmit_interrupt_on_completion: true, frame_id: 0 }
            },
            read(RXQCR),
            write(RXQCR, 0x0090),
            read(TXQCR),
            write(TXQCR, 0x0001),
            write(IER, 0xE842),
        ]
    );
    assert!(!runner.tx_done);
    assert!(runner.tx_space_available);
    assert_eq!(runner.chip.next_frame_id, 1);
    assert_eq!(runner.poll(), wait(false, false));
    assert!(!runner.accepts(&Event::Transmit { len: 64 }));

    sim.set(ISR, 0x4000);
    sim.log.clear();
    let notices = handle(&mut runner, &mut sim, Event::Interrupt);
    assert!(notices.is_empty());
    assert_eq!(sim.log, vec![read(ISR), write(ISR, 0x4000)]);
    assert_eq!(sim.get(ISR), 0);
    assert!(runner.tx_done);
    assert_eq!(runner.poll(), wait(true, false));
}

#[test]
fn frames_carry_consecutive_ids() {
    let mut runner = Runner::new();
    let mut sim = Sim::new();
    for n in 0..70u32 {
        sim.log.clear();
        handle(&mut runner, &mut sim, Event::Transmit { len: 100 });
        let sent: Vec<&Operation> =
            sim.log.iter().filter(|op| matches!(op, Operation::WriteFrame { .. })).collect();
        assert_eq!(
            sent,
            vec![&Operation::WriteFrame {
                control: TXCtrlWord {
                    transmit_interrupt_on_completion: true,
                    frame_id: (n % 32) as u8
                }
            }]
        );
        sim.set(ISR, 0x4000);
        handle(&mut runner, &mut sim, Event::Interrupt);
        assert_eq!(runner.chip.next_frame_id as u32, (n + 1) % 32);
    }
}

#[test]
fn a_frame_without_room_closes_the_gate_until_the_chip_reports_room() {
    let mut runner = Runner::new();
    let mut sim = Sim::new();
    sim.set(TXMIR, 100);
    let notices = handle(&mut runner, &mut sim, Event::Transmit { len: 1400 });
    assert!(notices.is_empty());
    assert_eq!(sim.log, vec![read(TXMIR), write(TXNTFSR, 1404), write(TXQCR, 0x0002)]);
    assert!(!runner.tx_space_available);
    assert!(runner.tx_done);
    assert_eq!(runner.chip.next_frame_id, 0);
    assert_eq!(runner.poll(), wait(false, false));
    assert!(!runner.accepts(&Event::Transmit { len: 1400 }));

    handle(&mut runner, &mut sim, Event::Tick);
    assert_eq!(runner.poll(), wait(false, false));
    sim.set(ISR, 0x4000 | 0x8000 | 0x0002);
    handle(&mut runner, &mut sim, Event::Interrupt);
    assert!(!runner.tx_space_available);
    assert_eq!(runner.poll(), wait(false, false));
    assert!(!sim.log.iter().any(|op| matches!(op, Operation::WriteFrame { .. })));

    sim.set(ISR, 0x0040);
    sim.set(TXMIR, 0x1800);
    sim.log.clear();
    handle(&mut runner, &mut sim, Event::Interrupt);
    assert_eq!(sim.log, vec![read(ISR), write(ISR, 0x0040)]);
    assert!(runner.tx_space_available);
    assert_eq!(runner.poll(), wait(true, false));
    let notices = handle(&mut runner, &mut sim, Event::Transmit { len: 1400 });
    assert_eq!(notices, vec![Notice::Transmitted]);
}

#[test]
fn a_receive_interrupt_is_masked_cleared_and_then_counted() {
    let mut runner = Runner::new();
    let mut sim = Sim::new();
    sim.set(ISR, 0x2000);
    sim.set(RXFCTR, 0x0300);
    let notices = handle(&mut runner, &mut sim, Event::Interrupt);
    assert!(notices.is_empty());
    assert_eq!(
        sim.log,
        vec![read(ISR), read(IER), write(IER, 0xC842), write(ISR, 0x2000), read(RXFCTR)]
    );
    assert_eq!(runner.rx_pending, 3);
    assert_eq!(runner.poll(), wait(true, true));
    assert!(!sim.receive_interrupt_enabled());
}

#[test]
fn frames_are_taken_one_by_one_and_the_interrupt_comes_back_after_the_last() {
    let (mut runner, mut sim) = with_frames_pending(2);
    assert_eq!(runner.rx_pending, 2);
    assert!(!sim.receive_interrupt_enabled());

    let notices = handle(&mut runner, &mut sim, Event::Receive { capacity: 1514 });
    assert_eq!(notices, vec![Notice::Received { len: 60 }]);
    assert_eq!(
        sim.log,
        vec![
            read(IER),
            write(IER, 0x0000),
            read(RXFHSR),
            read(RXFHBCR),
            read(RXFDPR),
            write(RXFDPR, 0x0000),
            read(RXQCR),
            write(RXQCR, 0x0098),
            Operation::ReadFrame { byte_count: 64 },
            read(RXQCR),
            write(RXQCR, 0x0090),
            write(IER, 0xC842),
        ]
    );
    assert_eq!(runner.rx_pending, 1);
    assert_eq!(runner.poll(), wait(true, true));
    assert!(!sim.receive_interrupt_enabled());

    sim.log.clear();
    sim.set(RXFHBCR, 1514);
    let notices = handle(&mut runner, &mut sim, Event::Receive { capacity: 1514 });
    assert_eq!(notices, vec![Notice::Received { len: 1510 }]);
    assert_eq!(runner.rx_pending, 0);
    assert_eq!(&sim.log[12..], &[read(IER), write(IER, 0xE842)]);
    assert_eq!(runner.poll(), wait(true, false));
    assert!(sim.receive_interrupt_enabled());
    assert!(!runner.accepts(&Event::Receive { capacity: 1514 }));
}

#[test]
fn the_receive_interrupt_is_off_exactly_while_frames_are_pending() {
    let mut runner = Runner::new();
    let mut sim = Sim::new();
    sim.set(RXFHSR, 0x8000);
    sim.set(RXFHBCR, 100);
    let mut check = |runner: &Runner, sim: &Sim| {
        assert!(matches!(runner.poll(), Demand::Wait { .. }));
        assert_eq!(sim.receive_interrupt_enabled(), runner.rx_pending == 0);
    };
    check(&runner, &sim);
    for round in 1..=4u8 {
        handle(&mut runner, &mut sim, Event::Tick);
        check(&runner, &sim);
        sim.set(ISR, 0x2000 | 0x8000);
        sim.set(RXFCTR, (round as u16) << 8);
        handle(&mut runner, &mut sim, Event::Interrupt);
        check(&runner, &sim);
        assert_eq!(runner.rx_pending, round);
        handle(&mut runner, &mut sim, Event::Transmit { len: 200 });
        check(&runner, &sim);
        sim.set(ISR, 0x4000);
        handle(&mut runner, &mut sim, Event::Interrupt);
        check(&runner, &sim);
        while runner.rx_pending > 0 {
            handle(&mut runner, &mut sim, Event::Receive { capacity: 1514 });
            check(&runner, &sim);
        }
        assert!(sim.receive_interrupt_enabled());
    }
}

#[test]
fn a_damaged_frame_counts_as_taken() {
    let (mut runner, mut sim) = with_frames_pending(2);
    sim.set(RXFHSR, 0x8001);
    let notices = handle(&mut runner, &mut sim, Event::Receive { capacity: 1514 });
    assert!(notices.is_empty());
    assert_eq!(runner.rx_pending, 1);
    assert_eq!(sim.get(RXQCR) & 1, 1);
    assert!(!sim.log.iter().any(|op| matches!(op, Operation::ReadFrame { .. })));
    assert_eq!(runner.poll(), wait(true, true));
    assert!(!sim.receive_interrupt_enabled());
}

#[test]
fn after_the_last_frame_was_damaged_the_receive_interrupt_comes_back() {
    let (mut runner, mut sim) = with_frames_pending(1);
    sim.set(RXFHSR, 0x8004);
    let notices = handle(&mut runner, &mut sim, Event::Receive { capacity: 1514 });
    assert!(notices.is_empty());
    assert_eq!(runner.rx_pending, 0);
    assert_eq!(runner.poll(), wait(true, false));
    assert!(sim.receive_interrupt_enabled());
    assert_eq!(&sim.log[sim.log.len() - 2..], &[read(IER), write(IER, 0x2000)]);
}

#[test]
fn a_missing_frame_resets_the_count() {
    let (mut runner, mut sim) = with_frames_pending(5);
    sim.set(RXFHSR, 0x0000);
    let notices = handle(&mut runner, &mut sim, Event::Receive { capacity: 1514 });
    assert!(notices.is_empty());
    assert_eq!(runner.rx_pending, 0);
    assert_eq!(runner.poll(), wait(true, false));
    assert!(sim.receive_interrupt_enabled());
}

#[test]
fn a_receive_interrupt_while_frames_are_pending_does_not_count_again() {
    let (mut runner, mut sim) = with_frames_pending(2);
    sim.set(ISR, 0x2000);
    sim.set(RXFCTR, 0x0700);
    handle(&mut runner, &mut sim, Event::Interrupt);
    assert_eq!(sim.log, vec![read(ISR), read(IER), write(IER, 0xC842), write(ISR, 0x2000)]);
    assert_eq!(runner.rx_pending, 2);
    assert_eq!(runner.poll(), wait(true, true));
}

#[test]
fn a_receive_interrupt_without_frames_leaves_nothing_pending() {
    let mut runner = Runner::new();
    let mut sim = Sim::new();
    sim.set(ISR, 0x2000);
    sim.set(RXFCTR, 0x0000);
    handle(&mut runner, &mut sim, Event::Interrupt);
    assert_eq!(runner.rx_pending, 0);
    assert_eq!(runner.poll(), wait(true, false));
    assert!(!sim.receive_interrupt_enabled());
}

#[test]
fn a_change_of_the_link_is_read_and_told() {
    let mut runner = Runner::new();
    let mut sim = Sim::new();
    sim.set(ISR, 0x8000);
    sim.set(P1SR, 0x0020);
    let notices = handle(&mut runner, &mut sim, Event::Interrupt);
    assert_eq!(notices, vec![Notice::LinkState(LinkState::Up)]);
    assert_eq!(sim.log, vec![read(ISR), read(P1SR), write(ISR, 0x8000)]);
    assert_eq!(runner, Runner::new());
}

#[test]
fn every_cause_that_was_seen_is_cleared_at_once() {
    let mut runner = Runner::new();
    let mut sim = Sim::new();
    sim.set(ISR, 0x8000 | 0x4000 | 0x2000 | 0x0040 | 0x0002 | 0x0300 | 0x003C);
    sim.set(RXFCTR, 0x0100);
    let notices = handle(&mut runner, &mut sim, Event::Interrupt);
    assert_eq!(notices, vec![Notice::LinkState(LinkState::Down)]);
    assert_eq!(
        sim.log,
        vec![
            read(ISR),
            read(P1SR),
            read(IER),
            write(IER, 0xC842),
            write(ISR, 0xE042),
            read(RXFCTR),
        ]
    );
    assert_eq!(sim.get(ISR), 0x0300 | 0x003C);
    assert_eq!(runner.rx_pending, 1);
}

#[test]
fn a_bus_error_reported_by_the_chip_is_cleared() {
    let mut runner = Runner::new();
    let mut sim = Sim::new();
    sim.set(ISR, 0x0002);
    handle(&mut runner, &mut sim, Event::Interrupt);
    assert_eq!(sim.log, vec![read(ISR), write(ISR, 0x0002)]);
    assert_eq!(runner, Runner::new());
}

#[test]
fn an_interrupt_without_a_cause_clears_nothing() {
    let mut runner = Runner::new();
    let mut sim = Sim::new();
    handle(&mut runner, &mut sim, Event::Interrupt);
    assert_eq!(sim.log, vec![read(ISR), write(ISR, 0x0000)]);
    assert_eq!(runner, Runner::new());
}

#[test]
fn an_overrun_of_the_receive_queue_stops_the_loop() {
    let mut runner = Runner::new();
    let mut sim = Sim::new();
    sim.set(ISR, 0x0800 | 0x2000);
    handle(&mut runner, &mut sim, Event::Interrupt);
    assert_eq!(runner.poll(), Demand::Halt(Fault::ReceiveOverrun));
    assert_eq!(sim.log, vec![read(ISR)]);
    assert!(!runner.accepts(&Event::Tick));
    assert!(!runner.accepts(&Event::Interrupt));
    assert!(!runner.accepts(&Event::Reply(Reply::Done)));
}

#[test]
fn an_overrun_stops_the_loop_after_the_link_was_told() {
    let mut runner = Runner::new();
    let mut sim = Sim::new();
    sim.set(ISR, 0x0800 | 0x8000);
    sim.set(P1SR, 0x0020);
    let notices = handle(&mut runner, &mut sim, Event::Interrupt);
    assert_eq!(notices, vec![Notice::LinkState(LinkState::Up)]);
    assert_eq!(runner.poll(), Demand::Halt(Fault::ReceiveOverrun));
}

#[test]
fn a_bus_error_stops_the_loop_whatever_it_was_doing() {
    let fault = Demand::Halt(Fault::Failed(Error::SpiError(ErrorKind::ChipSelectFault)));
    for index in 0..11usize {
        let mut runner = Runner::new();
        let mut sim = Sim::new();
        sim.fail_at = Some(index);
        let notices = handle(&mut runner, &mut sim, Event::Transmit { len: 64 });
        assert!(notices.is_empty());
        assert_eq!(runner.poll(), fault);
        assert_eq!(sim.log.len(), index + 1);
    }
    for index in 0..14usize {
        let (mut runner, mut sim) = with_frames_pending(1);
        sim.fail_at = Some(index);
        handle(&mut runner, &mut sim, Event::Receive { capacity: 1514 });
        assert_eq!(runner.poll(), fault);
    }
    for index in 0..6usize {
        let mut runner = Runner::new();
        let mut sim = Sim::new();
        sim.set(ISR, 0x8000 | 0x2000);
        sim.set(RXFCTR, 0x0100);
        sim.fail_at = Some(index);
        handle(&mut runner, &mut sim, Event::Interrupt);
        assert_eq!(runner.poll(), fault);
    }
    let mut runner = Runner::new();
    let mut sim = Sim::new();
    sim.fail_at = Some(0);
    handle(&mut runner, &mut sim, Event::Tick);
    assert_eq!(runner.poll(), fault);
}

#[test]
fn a_frame_too_big_for_the_chip_stops_the_loop() {
    let mut runner = Runner::new();
    let mut sim = Sim::new();
    handle(&mut runner, &mut sim, Event::Transmit { len: 2001 });
    assert_eq!(
        runner.poll(),
        Demand::Halt(Fault::Failed(Error::TxPacketTooBig { size: 2001, max: 2000 }))
    );
    assert!(sim.log.is_empty());
}

#[test]
fn the_loop_takes_only_what_it_waits_for() {
    let runner = Runner::new();
    assert!(runner.accepts(&Event::Interrupt));
    assert!(runner.accepts(&Event::Tick));
    assert!(runner.accepts(&Event::Transmit { len: 1 }));
    assert!(!runner.accepts(&Event::Receive { capacity: 1514 }));
    assert!(!runner.accepts(&Event::Reply(Reply::Done)));
    assert!(!runner.accepts(&Event::Reply(Reply::Word(0))));

    let mut busy = Runner::new();
    busy.advance(Event::Interrupt);
    assert_eq!(busy.activity, Activity::Status);
    assert_eq!(busy.poll(), Demand::Bus(read(ISR)));
    assert!(!busy.accepts(&Event::Interrupt));
    assert!(!busy.accepts(&Event::Tick));
    assert!(!busy.accepts(&Event::Transmit { len: 1 }));
    assert!(!busy.accepts(&Event::Reply(Reply::Done)));
    assert!(busy.accepts(&Event::Reply(Reply::Word(0))));
    assert!(busy.accepts(&Event::Reply(Reply::Failed(ErrorKind::Other))));
}

#[test]
fn the_loop_cannot_go_on_with_a_frame_longer_than_the_buffer() {
    let (mut runner, mut sim) = with_frames_pending(1);
    sim.set(RXFHBCR, 101);
    assert!(runner.accepts(&Event::Receive { capacity: 100 }));
    runner.advance(Event::Receive { capacity: 100 });
    for _ in 0..3 {
        if let Demand::Bus(operation) = runner.poll() {
            let reply = Event::Reply(sim.answer(operation));
            assert!(runner.accepts(&reply));
            runner.advance(reply);
        }
    }
    assert_eq!(runner.poll(), Demand::Bus(read(RXFHBCR)));
    assert!(!runner.accepts(&Event::Reply(Reply::Word(101))));
    assert!(runner.accepts(&Event::Reply(Reply::Word(100))));
}
