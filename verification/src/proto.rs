//! Superseded single-accumulator prototype with a byte-opcode instruction
//! format: `{opcode[7:0], address[15:0], flags[3:0]}` in one 32-bit word.
//!
//! Kept as a self-contained demonstration of the hardware-modelling style;
//! the RV32I datapath at the crate root replaces it as the target
//! architecture.

pub mod alu;
pub mod control_unit;
pub mod cpu;
pub mod memory;
pub mod types;
