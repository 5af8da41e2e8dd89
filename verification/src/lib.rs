//! A 4-bit computer built bottom-up: boolean gates compose into adders,
//! adders into a ripple-carry arithmetic unit, and the arithmetic unit,
//! a register file and a 16-cell memory into a fetch-decode-execute
//! processor. Every executable function carries a contract over a
//! mathematical model of the component it belongs to.

pub mod nibble;
pub mod gates;
pub mod half_adder;
pub mod full_adder;
pub mod alu;
pub mod registers;
pub mod memory;
pub mod cpu;
pub mod demo;
