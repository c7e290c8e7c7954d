//! A small bytecode virtual machine: registers, flags, an operand stack and a
//! growable heap, driven by a fetch-decode-execute loop.

pub mod endian;
pub mod flags;
pub mod header;
pub mod heap;
pub mod isa;
pub mod laws;
pub mod machine;
pub mod ops;
pub mod stack;
pub mod vm;

pub use flags::{Flag, FlagSet};
pub use heap::Heap;
pub use machine::{Fault, HostCall, Outcome, Register};
pub use stack::Stack;
pub use vm::VM;
