//! Core of a JavaScript-like language runtime: the tagged value encoding,
//! the object and property model, and the bytecode instruction set with its
//! virtual-register operand addressing.

pub mod bytecode;
pub mod runtime;
