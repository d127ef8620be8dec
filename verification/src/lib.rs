//! Register access for a peripheral that is reached over an addressed bus or
//! over a framed byte stream.
//!
//! The crate turns the logical operations on the peripheral (write a register,
//! write a raw payload, read a register, read a data sample) into the exact
//! transfers each link has to carry, and turns the bytes that come back into
//! typed values. It performs no I/O itself: an operation is an [`Exchange`],
//! which names the transfer to perform next and is advanced with the outcome
//! of that transfer.

pub mod command;
pub mod error;
pub mod exchange;
pub mod interface;
pub mod reply;
pub mod sample;
mod sealed;
pub mod transfer;

pub use command::{command_byte, Commands};
pub use error::Error;
pub use exchange::{Exchange, Progress};
pub use interface::{I2cInterface, Link, ReadData, SerialInterface, WriteData, SYNC};
pub use reply::Reply;
pub use sample::decode_sample;
pub use transfer::{BusTransfer, StreamTransfer, Transfer};
