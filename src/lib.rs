//! An emulator for a small 16-bit virtual machine with a fixed instruction
//! set of twenty-two opcodes, together with a linear disassembler.

pub mod alu;
pub mod disasm;
pub mod image;
pub mod input;
pub mod machine;
pub mod value;

pub use value::{parse, Value};
