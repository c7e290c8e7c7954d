//! The instruction set: which byte selects which instruction, how many
//! operand bytes follow it, on which states it faults, and what it does to
//! the state when it does not.

use vstd::prelude::*;
use crate::flags::Flag;
use crate::machine::{Fault, HostCall, Machine, Outcome, Register};
use crate::stack::has_room;

verus! {

/// The instructions of the machine. Every byte selects one of them; the bytes
/// to which no instruction is assigned select `Nop`.
#[derive(Debug, Clone, Copy, PartialEq, Eq, Structural)]
pub enum Opcode {
    Exit,
    PushLit,
    PushReg,
    PopReg,
    PopHeap,
    StackDupe,
    MovLitReg,
    MovLitHeap,
    MovHeapReg,
    MovRegHeap,
    MovRegReg,
    MovHeapHeap,
    PushHeap,
    MathAddReg,
    MathAddStack,
    MathSubReg,
    MathSubStack,
    MathMulReg,
    MathMulStack,
    MathDivReg,
    MathDivStack,
    MathNotReg,
    MathNotStack,
    MathAndReg,
    MathAndStack,
    MathOrReg,
    MathOrStack,
    MathXorReg,
    MathXorStack,
    JumpAbsolute,
    CompareRegReg,
    CompareRegLit,
    CompareStackLit,
    JumpEqual,
    JumpNotEqual,
    JumpGreater,
    JumpSmaller,
    JumpOverflow,
    Syscall,
    Nop,
}

/// The operations that take two numbers and give one.
pub enum Binary {
    Add,
    Sub,
    Mul,
    Div,
    And,
    Or,
    Xor,
}

/// The instruction that the opcode byte `byte` selects.
pub open spec fn opcode_of(byte: u8) -> Opcode {
    if byte == 0x00 {
        Opcode::Exit
    } else if byte == 0x01 {
        Opcode::PushLit
    } else if byte == 0x02 {
        Opcode::PushReg
    } else if byte == 0x03 {
        Opcode::PopReg
    } else if byte == 0x04 {
        Opcode::PopHeap
    } else if byte == 0x05 {
        Opcode::StackDupe
    } else if byte == 0x06 {
        Opcode::MovLitReg
    } else if byte == 0x07 {
        Opcode::MovLitHeap
    } else if byte == 0x08 {
        Opcode::MovHeapReg
    } else if byte == 0x09 {
        Opcode::MovRegHeap
    } else if byte == 0x0A {
        Opcode::MovRegReg
    } else if byte == 0x0B {
        Opcode::MovHeapHeap
    } else if byte == 0x0C {
        Opcode::PushHeap
    } else if byte == 0x10 {
        Opcode::MathAddReg
    } else if byte == 0x11 {
        Opcode::MathAddStack
    } else if byte == 0x12 {
        Opcode::MathSubReg
    } else if byte == 0x13 {
        Opcode::MathSubStack
    } else if byte == 0x14 {
        Opcode::MathMulReg
    } else if byte == 0x15 {
        Opcode::MathMulStack
    } else if byte == 0x16 {
        Opcode::MathDivReg
    } else if byte == 0x17 {
        Opcode::MathDivStack
    } else if byte == 0x18 {
        Opcode::MathNotReg
    } else if byte == 0x19 {
        Opcode::MathNotStack
    } else if byte == 0x1A {
        Opcode::MathAndReg
    } else if byte == 0x1B {
        Opcode::MathAndStack
    } else if byte == 0x1C {
        Opcode::MathOrReg
    } else if byte == 0x1D {
        Opcode::MathOrStack
    } else if byte == 0x1E {
        Opcode::MathXorReg
    } else if byte == 0x1F {
        Opcode::MathXorStack
    } else if byte == 0x20 {
        Opcode::JumpAbsolute
    } else if byte == 0x30 {
        Opcode::CompareRegReg
    } else if byte == 0x31 {
        Opcode::CompareRegLit
    } else if byte == 0x32 {
        Opcode::CompareStackLit
    } else if byte == 0x33 {
        Opcode::JumpEqual
    } else if byte == 0x34 {
        Opcode::JumpNotEqual
    } else if byte == 0x35 {
        Opcode::JumpGreater
    } else if byte == 0x36 {
        Opcode::JumpSmaller
    } else if byte == 0x37 {
        Opcode::JumpOverflow
    } else if byte == 0xFF {
        Opcode::Syscall
    } else {
        Opcode::Nop
    }
}

/// The number of operand bytes that follow the opcode: one for a register,
/// four for a literal or an address.
pub open spec fn operand_len(op: Opcode) -> int {
    match op {
        Opcode::Exit | Opcode::StackDupe | Opcode::Syscall | Opcode::Nop => 0,
        Opcode::MathAddStack | Opcode::MathSubStack | Opcode::MathMulStack | Opcode::MathDivStack
        | Opcode::MathNotStack | Opcode::MathAndStack | Opcode::MathOrStack
        | Opcode::MathXorStack => 0,
        Opcode::PushReg | Opcode::PopReg | Opcode::MathNotReg => 1,
        Opcode::MovRegReg | Opcode::CompareRegReg => 2,
        Opcode::MathAddReg | Opcode::MathSubReg | Opcode::MathMulReg | Opcode::MathDivReg
        | Opcode::MathAndReg | Opcode::MathOrReg | Opcode::MathXorReg => 2,
        Opcode::PushLit | Opcode::PopHeap | Opcode::PushHeap | Opcode::CompareStackLit => 4,
        Opcode::JumpAbsolute | Opcode::JumpEqual | Opcode::JumpNotEqual | Opcode::JumpGreater
        | Opcode::JumpSmaller | Opcode::JumpOverflow => 4,
        Opcode::MovLitReg | Opcode::MovHeapReg | Opcode::MovRegHeap | Opcode::CompareRegLit => 5,
        Opcode::MovLitHeap | Opcode::MovHeapHeap => 8,
    }
}

/// The number of values that the instruction takes or reads from the stack.
pub open spec fn stack_needs(op: Opcode) -> int {
    match op {
        Opcode::PopReg | Opcode::PopHeap | Opcode::StackDupe | Opcode::MathNotStack
        | Opcode::CompareStackLit => 1,
        Opcode::MathAddStack | Opcode::MathSubStack | Opcode::MathMulStack | Opcode::MathDivStack
        | Opcode::MathAndStack | Opcode::MathOrStack | Opcode::MathXorStack => 2,
        _ => 0,
    }
}

/// Whether every register operand of the instruction names a register.
pub open spec fn registers_valid(s: Machine, op: Opcode) -> bool {
    match op {
        Opcode::PushReg | Opcode::PopReg | Opcode::MovLitReg | Opcode::MovHeapReg
        | Opcode::MathNotReg | Opcode::CompareRegLit => s.names_register(1),
        Opcode::MovRegHeap => s.names_register(5),
        Opcode::MovRegReg | Opcode::CompareRegReg | Opcode::MathAddReg | Opcode::MathSubReg
        | Opcode::MathMulReg | Opcode::MathDivReg | Opcode::MathAndReg | Opcode::MathOrReg
        | Opcode::MathXorReg => s.names_register(1) && s.names_register(2),
        _ => true,
    }
}

/// Whether the instruction is a division whose divisor is zero.
pub open spec fn divides_by_zero(s: Machine, op: Opcode) -> bool {
    match op {
        Opcode::MathDivReg => s.reg_at(2) == 0,
        Opcode::MathDivStack => s.second() == 0,
        _ => false,
    }
}

/// Whether the instruction asks for memory that the machine word cannot
/// address: a push on a full stack that cannot double, a store at the last
/// address of the word, or an output of more bytes than the word can count.
pub open spec fn exhausts_memory(s: Machine, op: Opcode) -> bool {
    match op {
        Opcode::PushLit | Opcode::PushReg | Opcode::PushHeap | Opcode::StackDupe => !has_room(
            s.stack.len(),
            s.stack_capacity,
        ),
        Opcode::PopHeap | Opcode::MovLitHeap | Opcode::MovRegHeap => s.literal(1) >= usize::MAX,
        Opcode::MovHeapHeap => s.literal(5) >= usize::MAX,
        Opcode::Syscall => s.reg(Register::A) == 0 && 4 * s.reg(Register::C) > usize::MAX,
        _ => false,
    }
}

/// The fault that instruction `op` raises in state `s`, or `None` when it
/// executes. Where several faults apply, the first of these is raised: an
/// operand lies outside the program; a register operand names no register;
/// the stack holds too few values; the divisor is zero; memory is exhausted.
///
/// An instruction without operands reads no byte of the program, so that
/// where the program counter stands is nothing to it: to fetch the opcode
/// is the business of the step.
pub open spec fn fault_of(s: Machine, op: Opcode) -> Option<Fault> {
    if operand_len(op) > 0 && !s.holds(operand_len(op)) {
        Some(Fault::ProgramCounterOutOfBounds)
    } else if !registers_valid(s, op) {
        Some(Fault::InvalidRegister)
    } else if s.stack.len() < stack_needs(op) {
        Some(Fault::StackUnderflow)
    } else if divides_by_zero(s, op) {
        Some(Fault::DivideByZero)
    } else if exhausts_memory(s, op) {
        Some(Fault::OutOfMemory)
    } else {
        None
    }
}

/// Whether `op` applied to register contents wraps around the machine word.
pub open spec fn word_wraps(op: Binary, x: usize, y: usize) -> bool {
    match op {
        Binary::Add => x + y > usize::MAX,
        Binary::Sub => x < y,
        Binary::Mul => x * y > usize::MAX,
        _ => false,
    }
}

/// The result of `op` on register contents; sums, differences and products
/// wrap around the machine word.
pub open spec fn word_result(op: Binary, x: usize, y: usize) -> usize {
    match op {
        Binary::Add => x.wrapping_add(y),
        Binary::Sub => x.wrapping_sub(y),
        Binary::Mul => x.wrapping_mul(y),
        Binary::Div => x / y,
        Binary::And => x & y,
        Binary::Or => x | y,
        Binary::Xor => x ^ y,
    }
}

/// Whether `op` applied to stack values wraps around 32 bits.
pub open spec fn cell_wraps(op: Binary, a: u32, b: u32) -> bool {
    match op {
        Binary::Add => a + b > u32::MAX,
        Binary::Sub => a < b,
        Binary::Mul => a * b > u32::MAX,
        _ => false,
    }
}

/// The result of `op` on stack values; sums, differences and products wrap
/// around 32 bits.
pub open spec fn cell_result(op: Binary, a: u32, b: u32) -> u32 {
    match op {
        Binary::Add => a.wrapping_add(b),
        Binary::Sub => a.wrapping_sub(b),
        Binary::Mul => a.wrapping_mul(b),
        Binary::Div => a / b,
        Binary::And => a & b,
        Binary::Or => a | b,
        Binary::Xor => a ^ b,
    }
}

/// The state after a two-register instruction: the first register operand
/// receives the result of `op` on the two registers, and the overflow flag
/// is raised when the result wrapped.
pub open spec fn on_registers(s: Machine, op: Binary) -> Machine {
    let x = s.reg_at(1);
    let y = s.reg_at(2);
    s.note_overflow(word_wraps(op, x, y)).set_reg_at(1, word_result(op, x, y)).advance(2)
}

/// The state after a two-value stack instruction: the top value and the one
/// under it are replaced by the result of `op` on them, the former top being
/// the left operand, and the overflow flag is raised when the result wrapped.
pub open spec fn on_stack(s: Machine, op: Binary) -> Machine {
    let a = s.top();
    let b = s.second();
    s.pop().pop().note_overflow(cell_wraps(op, a, b)).push(cell_result(op, a, b))
}

/// The state after a jump to the literal operand that is taken only if
/// `taken` holds.
pub open spec fn jump_if(s: Machine, taken: bool) -> Machine {
    if taken {
        s.jump(s.literal(1))
    } else {
        s.advance(4)
    }
}

/// The state in which instruction `op` leaves the machine when it executes
/// in state `s` without a fault. The program counter then stands on the last
/// byte of the instruction, or one short of a jump's target.
pub open spec fn effect(s: Machine, op: Opcode) -> Machine {
    match op {
        Opcode::Exit => s.set_flag(Flag::Stop, true),
        Opcode::PushLit => s.push(s.literal(1)).advance(4),
        Opcode::PushReg => s.push(s.reg_at(1) as u32).advance(1),
        Opcode::PopReg => s.pop().set_reg_at(1, s.top() as usize).advance(1),
        Opcode::PopHeap => s.pop().store(s.literal(1) as nat, s.top()).advance(4),
        Opcode::StackDupe => s.push(s.top()),
        Opcode::MovLitReg => s.set_reg_at(1, s.literal(2) as usize).advance(5),
        Opcode::MovLitHeap => s.store(s.literal(1) as nat, s.literal(5)).advance(8),
        Opcode::MovHeapReg => s.set_reg_at(1, s.load(s.literal(2) as int) as usize).advance(5),
        Opcode::MovRegHeap => s.store(s.literal(1) as nat, s.reg_at(5) as u32).advance(5),
        Opcode::MovRegReg => s.set_reg_at(1, s.reg_at(2)).advance(2),
        Opcode::MovHeapHeap => s.store(s.literal(5) as nat, s.load(s.literal(1) as int)).advance(
            8,
        ),
        Opcode::PushHeap => s.push(s.load(s.literal(1) as int)).advance(4),
        Opcode::MathAddReg => on_registers(s, Binary::Add),
        Opcode::MathAddStack => on_stack(s, Binary::Add),
        Opcode::MathSubReg => on_registers(s, Binary::Sub),
        Opcode::MathSubStack => on_stack(s, Binary::Sub),
        Opcode::MathMulReg => on_registers(s, Binary::Mul),
        Opcode::MathMulStack => on_stack(s, Binary::Mul),
        Opcode::MathDivReg => on_registers(s, Binary::Div),
        Opcode::MathDivStack => on_stack(s, Binary::Div),
        Opcode::MathNotReg => s.set_reg_at(1, !s.reg_at(1)).advance(1),
        Opcode::MathNotStack => s.pop().push(!s.top()),
        Opcode::MathAndReg => on_registers(s, Binary::And),
        Opcode::MathAndStack => on_stack(s, Binary::And),
        Opcode::MathOrReg => on_registers(s, Binary::Or),
        Opcode::MathOrStack => on_stack(s, Binary::Or),
        Opcode::MathXorReg => on_registers(s, Binary::Xor),
        Opcode::MathXorStack => on_stack(s, Binary::Xor),
        Opcode::JumpAbsolute => jump_if(s, true),
        Opcode::CompareRegReg => s.compared(s.reg_at(1) as u32, s.reg_at(2) as u32).advance(2),
        Opcode::CompareRegLit => s.compared(s.reg_at(1) as u32, s.literal(2)).advance(5),
        Opcode::CompareStackLit => s.compared(s.top(), s.literal(1)).advance(4),
        Opcode::JumpEqual => jump_if(s, s.flags.equal),
        Opcode::JumpNotEqual => jump_if(s, s.flags.not_equal),
        Opcode::JumpGreater => jump_if(s, s.flags.greater),
        Opcode::JumpSmaller => jump_if(s, s.flags.smaller),
        Opcode::JumpOverflow => jump_if(s, s.flags.overflow),
        Opcode::Syscall => s,
        Opcode::Nop => s,
    }
}

/// Whether a call of the handler of `op` that ended with `r` took the state
/// from `before` to `after` as the instruction demands: on a fault the fault
/// is reported and the state is untouched, else the instruction's effect has
/// taken place.
pub open spec fn executes(before: Machine, after: Machine, r: Result<(), Fault>, op: Opcode) -> bool {
    match fault_of(before, op) {
        Some(fault) => r == Err::<(), Fault>(fault) && after == before,
        None => r == Ok::<(), Fault>(()) && after == effect(before, op),
    }
}

/// The service that a syscall asks for in state `s`: register A selects it,
/// registers B and C are its arguments. A code that selects no service asks
/// for nothing.
pub open spec fn request(s: Machine) -> Option<HostCall> {
    let code = s.reg(Register::A);
    if code == 0 {
        Some(HostCall::Write { addr: s.reg(Register::B), len: s.reg(Register::C) })
    } else if code == 1 {
        Some(HostCall::Read { addr: s.reg(Register::B), len: s.reg(Register::C) })
    } else if code == 2 {
        Some(HostCall::ClearScreen)
    } else if code == 3 {
        Some(HostCall::PrintInt { value: s.reg(Register::B) })
    } else {
        None
    }
}

/// The instruction that the program counter stands on.
pub open spec fn current(s: Machine) -> Opcode {
    opcode_of(s.byte(0))
}

/// What the current instruction asks of the host: the request of a syscall,
/// and nothing for any other instruction.
pub open spec fn asks(s: Machine) -> Option<HostCall> {
    if current(s) == Opcode::Syscall {
        request(s)
    } else {
        None
    }
}

/// Whether a step that ended with `r` took the state from `before` to
/// `after` as the instruction under the program counter demands. Where the
/// counter stands outside the program there is no opcode to fetch, which is
/// a fault. Where the instruction faults, the fault is reported. On either
/// fault the state is untouched. Else the instruction's effect has taken
/// place and its request to the host, if any, is handed out.
pub open spec fn takes_step(
    before: Machine,
    after: Machine,
    r: Result<Option<HostCall>, Fault>,
) -> bool {
    if !before.holds(0) {
        r == Err::<Option<HostCall>, Fault>(Fault::ProgramCounterOutOfBounds) && after == before
    } else {
        match fault_of(before, current(before)) {
            Some(fault) => r == Err::<Option<HostCall>, Fault>(fault) && after == before,
            None => r == Ok::<Option<HostCall>, Fault>(asks(before)) && after == effect(
                before,
                current(before),
            ),
        }
    }
}

/// The state and the result with which a run of at most `steps`
/// instructions ends that first parses the header: a malformed header is
/// reported with the state untouched, else the run starts after the header.
pub open spec fn run_from_header(s: Machine, steps: nat) -> (Machine, Result<Outcome, Fault>) {
    if s.header_malformed() {
        (s, Err(Fault::MalformedHeader))
    } else {
        run(s.parse_header(), steps)
    }
}

/// Where and how a run of at most `steps` instructions from state `s` ends.
///
/// The run ends as soon as the stop flag is set, the budget is used up, the
/// program counter stands outside the program, an instruction faults (on
/// either fault the state is the one before that instruction), or a syscall
/// asks something of the host (the state is then the one after the syscall,
/// ready to be resumed).
pub open spec fn run(s: Machine, steps: nat) -> (Machine, Result<Outcome, Fault>)
    decreases steps,
{
    if s.flags.stop {
        (s, Ok(Outcome::Stopped))
    } else if steps == 0 {
        (s, Ok(Outcome::StepLimit))
    } else if !s.holds(0) {
        (s, Err(Fault::ProgramCounterOutOfBounds))
    } else {
        match fault_of(s, current(s)) {
            Some(fault) => (s, Err(fault)),
            None => {
                let after = effect(s, current(s)).next();
                match asks(s) {
                    Some(call) => (after, Ok(Outcome::Host(call))),
                    None => run(after, (steps - 1) as nat),
                }
            },
        }
    }
}

impl Opcode {
    /// Decodes an opcode byte.
    pub fn decode(byte: u8) -> (op: Opcode)
        ensures
            op == opcode_of(byte),
    {
        match byte {
            0x00 => Opcode::Exit,
            0x01 => Opcode::PushLit,
            0x02 => Opcode::PushReg,
            0x03 => Opcode::PopReg,
            0x04 => Opcode::PopHeap,
            0x05 => Opcode::StackDupe,
            0x06 => Opcode::MovLitReg,
            0x07 => Opcode::MovLitHeap,
            0x08 => Opcode::MovHeapReg,
            0x09 => Opcode::MovRegHeap,
            0x0A => Opcode::MovRegReg,
            0x0B => Opcode::MovHeapHeap,
            0x0C => Opcode::PushHeap,
            0x10 => Opcode::MathAddReg,
            0x11 => Opcode::MathAddStack,
            0x12 => Opcode::MathSubReg,
            0x13 => Opcode::MathSubStack,
            0x14 => Opcode::MathMulReg,
            0x15 => Opcode::MathMulStack,
            0x16 => Opcode::MathDivReg,
            0x17 => Opcode::MathDivStack,
            0x18 => Opcode::MathNotReg,
            0x19 => Opcode::MathNotStack,
            0x1A => Opcode::MathAndReg,
            0x1B => Opcode::MathAndStack,
            0x1C => Opcode::MathOrReg,
            0x1D => Opcode::MathOrStack,
            0x1E => Opcode::MathXorReg,
            0x1F => Opcode::MathXorStack,
            0x20 => Opcode::JumpAbsolute,
            0x30 => Opcode::CompareRegReg,
            0x31 => Opcode::CompareRegLit,
            0x32 => Opcode::CompareStackLit,
            0x33 => Opcode::JumpEqual,
            0x34 => Opcode::JumpNotEqual,
            0x35 => Opcode::JumpGreater,
            0x36 => Opcode::JumpSmaller,
            0x37 => Opcode::JumpOverflow,
            0xFF => Opcode::Syscall,
            _ => Opcode::Nop,
        }
    }

    /// The number of operand bytes that follow the opcode.
    pub fn operand_count(self) -> (n: usize)
        ensures
            n == operand_len(self),
    {
        match self {
            Opcode::Exit | Opcode::StackDupe | Opcode::Syscall | Opcode::Nop => 0,
            Opcode::MathAddStack | Opcode::MathSubStack | Opcode::MathMulStack
            | Opcode::MathDivStack | Opcode::MathNotStack | Opcode::MathAndStack
            | Opcode::MathOrStack | Opcode::MathXorStack => 0,
            Opcode::PushReg | Opcode::PopReg | Opcode::MathNotReg => 1,
            Opcode::MovRegReg | Opcode::CompareRegReg => 2,
            Opcode::MathAddReg | Opcode::MathSubReg | Opcode::MathMulReg | Opcode::MathDivReg
            | Opcode::MathAndReg | Opcode::MathOrReg | Opcode::MathXorReg => 2,
            Opcode::PushLit | Opcode::PopHeap | Opcode::PushHeap | Opcode::CompareStackLit => 4,
            Opcode::JumpAbsolute | Opcode::JumpEqual | Opcode::JumpNotEqual
            | Opcode::JumpGreater | Opcode::JumpSmaller | Opcode::JumpOverflow => 4,
            Opcode::MovLitReg | Opcode::MovHeapReg | Opcode::MovRegHeap
            | Opcode::CompareRegLit => 5,
            Opcode::MovLitHeap | Opcode::MovHeapHeap => 8,
        }
    }

    /// The number of values that the instruction takes or reads from the
    /// stack.
    pub fn stack_demand(self) -> (n: usize)
        ensures
            n == stack_needs(self),
    {
        match self {
            Opcode::PopReg | Opcode::PopHeap | Opcode::StackDupe | Opcode::MathNotStack
            | Opcode::CompareStackLit => 1,
            Opcode::MathAddStack | Opcode::MathSubStack | Opcode::MathMulStack
            | Opcode::MathDivStack | Opcode::MathAndStack | Opcode::MathOrStack
            | Opcode::MathXorStack => 2,
            _ => 0,
        }
    }
}

} // verus!
