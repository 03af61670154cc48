//! The bytecode machine's instruction set and operand addressing.

pub mod def;
pub mod disassembly;
pub mod virtualregister;
