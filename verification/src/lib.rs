//! Driver core for the KSZ8851SNL Ethernet controller on an SPI bus.
//!
//! The crate performs no I/O. Every operation on the chip is a small state
//! machine: it names the next bus operation, takes the chip's answer, and
//! moves on. The caller owns the bus, the pins and the clock.
//!
//! - [`registers`] describes the chip's registers and their bit fields.
//! - [`command`], [`frame`] and [`codec`] give each bus operation its bytes.
//! - [`chip`] holds the operations: bring-up, the station address, the link,
//!   sending and receiving a frame.
//! - [`runner`] is the event loop that serves the interrupt, the network
//!   stack and the timer, and [`setup`] starts it.
//! - [`discipline`] states what the event loop keeps to at every step.

pub mod bits;
pub mod bus;
pub mod chip;
pub mod codec;
pub mod command;
pub mod config;
pub mod discipline;
pub mod error;
pub mod frame;
pub mod registers;
pub mod runner;
pub mod setup;

pub use chip::Chip;
pub use error::{Error, LinkState};
pub use frame::{TXCtrlWord, MTU};
pub use runner::Runner;
pub use setup::{new, Setup};
