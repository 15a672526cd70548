//! Driver logic for a 24-bit delta-sigma converter with four 8-bit
//! configuration registers, reached over a serial bus.

pub mod fields;
pub mod sample;
pub mod protocol;
pub mod registers;
pub mod driver;
