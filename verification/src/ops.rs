//! The handlers of the instructions, one function per instruction.
//!
//! Every handler first asks whether its instruction faults in the present
//! state. If so it reports the fault and leaves the state alone; if not it
//! consumes its operands and carries the instruction out. A handler reads
//! the program only for its operands: one without operands works wherever
//! the program counter stands, and even with no program loaded.

pub mod arith;
pub mod bitwise;
pub mod compare;
pub mod control;
pub mod data;
pub mod syscall;
