//! Driver core for a memory-mapped 16550-compatible UART, set to 38400 bps
//! with eight data bits, no parity and one stop bit, and used by polling.
//!
//! The core decides which device registers are read and written, in which
//! order and with which values; it never touches memory itself. Each operation
//! ([`Setup`], [`Transmit`], [`Receive`]) is a small state machine: `request`
//! says which access to make next, the caller makes it and reports it with
//! `read_done` or `write_done`, and so on until the request is `Done` and
//! carries the result. A report that was not asked for changes nothing.
//!
//! The caller's part is to make every access as a single volatile byte access,
//! in the order in which it was asked for, on a register window that is
//! mapped, backed by the device, and used by one operation at a time.

pub mod access;
pub mod poll;
pub mod receive;
pub mod registers;
pub mod setup;
pub mod transmit;
pub mod uart;

pub use access::{Access, Request};
pub use poll::{Poll, PollState};
pub use receive::Receive;
pub use setup::Setup;
pub use transmit::Transmit;
pub use uart::{Fault, UART};
