use embedded_hal::spi::ErrorKind;
use ksz8851snl::bus::{Operation, Reply, Step};
use ksz8851snl::error::Error;
use ksz8851snl::runner::{Demand, Runner};
use ksz8851snl::setup::{new, Setup};

/// Runs the start of the driver against a chip that keeps what is written
/// to its registers and identifies as `cider`. The operation with the
/// index `fail_at` fails.
fn run(mut setup: Setup, cider: u16, fail_at: Option<usize>) -> (Result<Runner, Error>, Vec<Operation>) {
    let mut regs = [0u16; 256];
    regs[0xC0] = cider;
    let mut log = Vec::new();
    loop {
        match setup.poll() {
            Step::Ready(result) => return (result, log),
            Step::Pending(operation) => {
                let index = log.len();
                log.push(operation);
                let reply = if fail_at == Some(index) {
                    Reply::Failed(ErrorKind::ModeFault)
                } else {
                    match operation {
                        Operation::ReadRegister { address } => Reply::Word(regs[address as usize]),
                        Operation::WriteRegister { address, word } => {
                            regs[address as usize] = word;
                            Reply::Done
                        }
                        _ => Reply::Done,
                    }
                };
                assert!(setup.accepts(&reply));
                setup.advance(reply);
            }
        }
    }
}

#[test]
fn the_driver_starts_with_the_reset_line_and_ends_with_the_address() {
    let mac = [0x02, 0x00, 0x00, 0x12, 0x34, 0x56];
    let (result, log) = run(new(mac, false), 0x8872, None);
    assert_eq!(result, Ok(Runner::new()));
    assert_eq!(log.len(), 2 + 29 + 3);
    assert_eq!(log[0], Operation::ReleaseReset);
    assert_eq!(log[1], Operation::Delay { millis: 10 });
    assert_eq!(log[2], Operation::WriteRegister { address: 0x26, word: 0x0001 });
    assert_eq!(log[30], Operation::WriteRegister { address: 0x74, word: 0x0021 });
    assert_eq!(
        &log[31..],
        &[
            Operation::WriteRegister { address: 0x14, word: 0x0200 },
            Operation::WriteRegister { address: 0x12, word: 0x0012 },
            Operation::WriteRegister { address: 0x10, word: 0x3456 },
        ]
    );
}

#[test]
fn the_loop_that_the_start_yields_waits_for_its_first_event() {
    let (result, _) = run(new([1, 2, 3, 4, 5, 6], true), 0x8872, None);
    let runner = result.unwrap();
    assert_eq!(runner.poll(), Demand::Wait { transmit: true, receive: false });
}

#[test]
fn the_start_passes_the_broadcast_policy_on() {
    let (_, quiet) = run(new([0; 6], false), 0x8872, None);
    assert!(quiet.contains(&Operation::WriteRegister { address: 0x74, word: 0x0020 }));
    let (_, open) = run(new([0; 6], true), 0x8872, None);
    assert!(open.contains(&Operation::WriteRegister { address: 0x74, word: 0x00A0 }));
}

#[test]
fn the_start_ends_with_the_error_of_bring_up() {
    let (result, log) = run(new([0; 6], false), 0x0000, None);
    assert_eq!(
        result,
        Err(Error::BadChipId {
            expected_family: 0x88,
            actual_family: 0x00,
            expected_chip: 0x7,
            actual_chip: 0x0,
        })
    );
    assert_eq!(log.len(), 2 + 5);
}

#[test]
fn the_start_ends_with_the_first_bus_error() {
    for index in [2usize, 6, 15, 30, 31, 32, 33] {
        let (result, log) = run(new([0; 6], false), 0x8872, Some(index));
        assert_eq!(result, Err(Error::SpiError(ErrorKind::ModeFault)));
        assert_eq!(log.len(), index + 1);
    }
}

#[test]
fn the_reset_line_and_the_wait_cannot_fail() {
    let mut setup = new([0; 6], false);
    assert_eq!(setup.poll(), Step::Pending(Operation::ReleaseReset));
    assert!(!setup.accepts(&Reply::Failed(ErrorKind::Other)));
    assert!(setup.accepts(&Reply::Done));
    setup.advance(Reply::Done);
    assert_eq!(setup.poll(), Step::Pending(Operation::Delay { millis: 10 }));
    assert!(!setup.accepts(&Reply::Failed(ErrorKind::Other)));
    assert!(!setup.accepts(&Reply::Word(0)));
    assert!(setup.accepts(&Reply::Done));
}
