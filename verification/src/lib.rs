//! Register-level logic of a driver for the Si4702 and Si4703 FM radio tuners.
//!
//! The chip is controlled over I²C by reading and writing its bank of sixteen
//! 16-bit registers. This crate holds everything that happens between a bus
//! read and a bus write: it decodes the bytes the chip sends, changes the
//! fields an operation asks for, and encodes the words to send back.
//! Performing the bus transactions themselves is left to the caller.

pub mod registers;
pub mod config;
pub mod device;
pub mod ic;
