//! Parameter access for DSY-RS low voltage servo drives over Modbus RTU.
//!
//! - [`registers`]: the register address of every named parameter
//!   (`PXX.YY` is at `XX * 256 + YY`) and the register families of the
//!   multi-segment program and the digital I/O channels.
//! - [`words`]: how signed and 32-bit values are laid out in registers.
//! - [`types`]: the error type, the parameter enumerations with their raw
//!   encodings, and the configuration structures.
//! - [`exchange`]: bus commands and the engine that carries out a plan of
//!   them, stopping at the first failure.
//! - [`ops`]: every operation of the drive as a plan of commands, checked
//!   before anything is sent, and the decoders of the replies.
//!
//! The transport itself (serial port, framing, waiting for replies) stays
//! with the caller, which performs each command the exchange hands out and
//! reports the outcome back.

pub mod exchange;
pub mod ops;
pub mod registers;
pub mod types;
pub mod words;
