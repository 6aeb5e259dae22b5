//! A verified emulator core for a small 16-bit educational register machine:
//! eight general registers, a program counter, a condition-flag register,
//! 65,536 words of memory with two memory-mapped keyboard registers, and a
//! 16-opcode instruction set executed by a fetch-decode-execute loop.

pub mod arch;
pub mod console;
pub mod memory;
pub mod registers;
pub mod semantics;
pub mod directives;
pub mod traps;
pub mod machine;
pub mod loader;
pub mod laws;
