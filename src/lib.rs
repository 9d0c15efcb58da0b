//! Instruction-execution core of a cycle-accurate Z80-class CPU emulator:
//! the register file, the CPU state, opcodes and the opcode-family builders.

pub mod registers;
pub mod state;
pub mod opcode;
