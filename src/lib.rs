//! Execution core of an 8-bit CPU with a Z80-style register set: a register
//! file with paired 16-bit views, a 64 KiB flat memory, the opcode decode
//! tables and the fetch/decode/execute step.
pub mod cpu;
pub mod instructions;
pub mod registers;
pub mod utils;
