//! A verified interpreter for a small 16-bit virtual machine: a 15-bit
//! address space of 32768 cells, eight general-purpose registers, an
//! unbounded call/data stack, and 22 opcodes executed by a
//! fetch-decode-execute step function. Character output, byte input and
//! program-image loading are handled by the embedding program; the library
//! exposes the pure state transitions with exact contracts.

pub mod arith;
pub mod io;
pub mod loader;
pub mod operand;
pub mod outcome;
pub mod stack;
pub mod vm;
