//! The mathematical model of the machine: its state as plain values, the
//! ways one instruction can change it, and the ways execution can end.

use vstd::prelude::*;
use crate::endian::be_value;
use crate::flags::{Flag, FlagSet};
use crate::header::header_len;
use crate::heap::{cell_at, stored, stored_bytes, zeros, HEAP_INITIAL_CAPACITY};
use crate::stack::{capacity_after_push, STACK_INITIAL_CAPACITY};

verus! {

/// The four general-purpose registers.
#[derive(Debug, Clone, Copy, PartialEq, Eq, Structural)]
pub enum Register {
    A,
    B,
    C,
    D,
}

impl Register {
    /// The register's place in the register file, which is also the byte
    /// that names it in a program.
    pub open spec fn slot(self) -> int {
        match self {
            Register::A => 0,
            Register::B => 1,
            Register::C => 2,
            Register::D => 3,
        }
    }

    /// The register's place in the register file.
    pub fn index(self) -> (i: usize)
        ensures
            i == self.slot(),
            i < 4,
    {
        match self {
            Register::A => 0,
            Register::B => 1,
            Register::C => 2,
            Register::D => 3,
        }
    }
}

/// A condition that ends execution for good.
#[derive(Debug, Clone, Copy, PartialEq, Eq, Structural)]
pub enum Fault {
    /// A value was needed from a stack that does not hold enough of them.
    StackUnderflow,
    /// The stack or the heap would have to grow beyond what the machine word
    /// can address.
    OutOfMemory,
    /// The divisor of a division is zero.
    DivideByZero,
    /// The opcode or one of its operands lies outside the program.
    ProgramCounterOutOfBounds,
    /// The program is shorter than the shortest header.
    MalformedHeader,
    /// A register operand is not one of the bytes 0 to 3.
    InvalidRegister,
}

/// A service that a program asks of its host through the syscall
/// instruction. The machine only names the service; the host performs it.
#[derive(Debug, Clone, Copy, PartialEq, Eq, Structural)]
pub enum HostCall {
    /// Write the `len` heap cells from `addr` on to standard output, each
    /// cell as four bytes, most significant first.
    Write { addr: usize, len: usize },
    /// Read up to `len` bytes from standard input and store them in the heap
    /// from `addr` on, one byte per cell.
    Read { addr: usize, len: usize },
    /// Clear the terminal.
    ClearScreen,
    /// Print `value` as a decimal number.
    PrintInt { value: usize },
}

/// How a bounded run ends when no fault occurs.
#[derive(Debug, Clone, Copy, PartialEq, Eq, Structural)]
pub enum Outcome {
    /// The stop flag is set.
    Stopped,
    /// The program executed a syscall and waits for the host to perform it.
    Host(HostCall),
    /// The step budget is used up and the program has not stopped.
    StepLimit,
}

/// The state of the machine as plain values.
pub struct Machine {
    /// The registers A to D, in this order.
    pub regs: Seq<usize>,
    pub flags: FlagSet,
    /// The stack, oldest value first.
    pub stack: Seq<u32>,
    /// The number of slots the stack owns.
    pub stack_capacity: nat,
    /// The heap's cells; the length is the heap's capacity.
    pub heap: Seq<u32>,
    /// The loaded program image, header included.
    pub program: Seq<u8>,
    /// The program counter, relative to the end of the header.
    pub pc: usize,
    pub base: u32,
    /// The offset of the first instruction in the program image.
    pub header_size: usize,
}

impl Machine {
    /// The state of a new machine: registers, flags and counters at zero, an
    /// empty stack, a zeroed heap and no program.
    pub open spec fn initial() -> Machine {
        Machine {
            regs: seq![0usize, 0usize, 0usize, 0usize],
            flags: FlagSet {
                equal: false,
                not_equal: false,
                greater: false,
                smaller: false,
                overflow: false,
                stop: false,
            },
            stack: Seq::empty(),
            stack_capacity: STACK_INITIAL_CAPACITY as nat,
            heap: zeros(HEAP_INITIAL_CAPACITY as nat),
            program: Seq::empty(),
            pc: 0,
            base: 0,
            header_size: 0,
        }
    }

    /// The state with `program` as the program image.
    pub open spec fn load_program(self, program: Seq<u8>) -> Machine {
        Machine { program, ..self }
    }

    /// Whether the header of the program image cannot be parsed: the image
    /// is shorter than a sentinel, or the header's size does not fit the
    /// machine word.
    pub open spec fn header_malformed(self) -> bool {
        self.program.len() < 4 || header_len(self.program) + 4 > usize::MAX
    }

    /// The state after the header is parsed: the header bytes stand in the
    /// heap at the addresses they have in the image, and the header's size
    /// counts them and the sentinel.
    pub open spec fn parse_header(self) -> Machine {
        let n = header_len(self.program);
        Machine {
            heap: stored_bytes(self.heap, 0, self.program.take(n)),
            header_size: (n + 4) as usize,
            ..self
        }
    }

    /// The place in the program image of the byte `k` bytes after the
    /// current opcode; `byte_index(0)` is the place of the opcode itself.
    pub open spec fn byte_index(self, k: int) -> int {
        self.pc + self.header_size + k
    }

    /// Whether the opcode and its first `k` operand bytes lie in the program.
    pub open spec fn holds(self, k: int) -> bool {
        self.byte_index(k) < self.program.len()
    }

    /// The byte `k` bytes after the current opcode.
    pub open spec fn byte(self, k: int) -> u8 {
        self.program[self.byte_index(k)]
    }

    /// The literal operand that starts `k` bytes after the current opcode:
    /// four bytes, most significant first.
    pub open spec fn literal(self, k: int) -> u32 {
        be_value(self.byte(k), self.byte(k + 1), self.byte(k + 2), self.byte(k + 3))
    }

    /// Whether the byte `k` bytes after the current opcode names a register.
    pub open spec fn names_register(self, k: int) -> bool {
        self.byte(k) < 4
    }

    /// The content of the register that the byte `k` bytes after the current
    /// opcode names.
    pub open spec fn reg_at(self, k: int) -> usize {
        self.regs[self.byte(k) as int]
    }

    /// The state with the register named by operand byte `k` set to `value`.
    pub open spec fn set_reg_at(self, k: int, value: usize) -> Machine {
        Machine { regs: self.regs.update(self.byte(k) as int, value), ..self }
    }

    /// The content of register `reg`.
    pub open spec fn reg(self, reg: Register) -> usize {
        self.regs[reg.slot()]
    }

    /// The state with the program counter moved past `n` operand bytes.
    pub open spec fn advance(self, n: int) -> Machine {
        Machine { pc: (self.pc + n) as usize, ..self }
    }

    /// The state after a jump to `target`: the counter is left one short of
    /// the target, wrapping around at zero, because the execution loop adds
    /// one after every instruction.
    pub open spec fn jump(self, target: u32) -> Machine {
        Machine { pc: (target as usize).wrapping_sub(1), ..self }
    }

    /// The state as the execution loop leaves it after an instruction: the
    /// counter moved on by one, wrapping around at the word's maximum.
    pub open spec fn next(self) -> Machine {
        Machine { pc: self.pc.wrapping_add(1), ..self }
    }

    /// The value on top of the stack.
    pub open spec fn top(self) -> u32 {
        self.stack.last()
    }

    /// The value just under the top of the stack.
    pub open spec fn second(self) -> u32 {
        self.stack[self.stack.len() - 2]
    }

    /// The state with `value` pushed on the stack.
    pub open spec fn push(self, value: u32) -> Machine {
        Machine {
            stack: self.stack.push(value),
            stack_capacity: capacity_after_push(self.stack.len(), self.stack_capacity),
            ..self
        }
    }

    /// The state with the top of the stack removed.
    pub open spec fn pop(self) -> Machine {
        Machine { stack: self.stack.drop_last(), ..self }
    }

    /// What a read of the heap at `addr` yields.
    pub open spec fn load(self, addr: int) -> u32 {
        cell_at(self.heap, addr)
    }

    /// The state with `value` stored in the heap at `addr`.
    pub open spec fn store(self, addr: nat, value: u32) -> Machine {
        Machine { heap: stored(self.heap, addr, value), ..self }
    }

    /// The state with `flag` set to `value`.
    pub open spec fn set_flag(self, flag: Flag, value: bool) -> Machine {
        Machine { flags: self.flags.with(flag, value), ..self }
    }

    /// The state with the overflow flag raised if `wrapped` holds, and the
    /// flags untouched otherwise: the flag is never lowered.
    pub open spec fn note_overflow(self, wrapped: bool) -> Machine {
        if wrapped {
            self.set_flag(Flag::Overflow, true)
        } else {
            self
        }
    }

    /// The state after the unsigned numbers `a` and `b` are compared: the
    /// four ordering flags describe how `a` stands to `b`, the two others
    /// keep their values.
    pub open spec fn compared(self, a: u32, b: u32) -> Machine {
        Machine {
            flags: FlagSet {
                equal: a == b,
                not_equal: a != b,
                greater: a > b,
                smaller: a < b,
                ..self.flags
            },
            ..self
        }
    }
}

} // verus!
