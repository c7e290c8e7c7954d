//! The virtual machine: the state it owns, the operand-fetch primitives that
//! every instruction uses, the header parser and the execution loop.

use vstd::prelude::*;
use crate::endian::combine;
use crate::flags::{Flag, FlagSet};
use crate::header::{header_len, scan, sentinel_at, SENTINEL};
use crate::heap::{stored_bytes, Heap};
use crate::isa::{
    divides_by_zero, exhausts_memory, fault_of, operand_len, registers_valid, run,
    run_from_header, stack_needs, takes_step, Opcode,
};
use crate::ops::arith::{
    math_add_reg, math_add_stack, math_div_reg, math_div_stack, math_mul_reg, math_mul_stack,
    math_sub_reg, math_sub_stack,
};
use crate::ops::bitwise::{
    math_and_reg, math_and_stack, math_not_reg, math_not_stack, math_or_reg, math_or_stack,
    math_xor_reg, math_xor_stack,
};
use crate::ops::compare::{compare_reg_lit, compare_reg_reg, compare_stack_lit};
use crate::ops::control::{
    exit, jump_absolute, jump_equal, jump_greater, jump_not_equal, jump_overflow, jump_smaller,
    nop,
};
use crate::ops::data::{
    mov_heap_heap, mov_heap_reg, mov_lit_heap, mov_lit_reg, mov_reg_heap, mov_reg_reg, pop_heap,
    pop_reg, push_heap, push_lit, push_reg, stack_dupe,
};
use crate::ops::syscall::syscall;
use crate::machine::{Fault, HostCall, Machine, Outcome, Register};
use crate::stack::Stack;

verus! {

/// The virtual machine. It owns everything its program can touch.
#[derive(Debug)]
pub struct VM {
    /// The registers A to D.
    pub regs: [usize; 4],
    pub flags: FlagSet,
    pub stack: Stack,
    pub heap: Heap,
    /// The loaded program image, header included.
    pub bytecode: Vec<u8>,
    /// The program counter, relative to the end of the header.
    pub prgrm_cntr: usize,
    /// Reserved for stack frames; no instruction reads or writes it.
    pub base_ptr: u32,
    /// The offset of the first instruction in the program image.
    pub hdr_size: usize,
}

impl View for VM {
    type V = Machine;

    open spec fn view(&self) -> Machine {
        Machine {
            regs: self.regs@,
            flags: self.flags,
            stack: self.stack@,
            stack_capacity: self.stack.spec_capacity(),
            heap: self.heap@,
            program: self.bytecode@,
            pc: self.prgrm_cntr,
            base: self.base_ptr,
            header_size: self.hdr_size,
        }
    }
}

impl VM {
    /// The machine's invariant: that of its stack, and a program image whose
    /// length the machine word can hold.
    pub open spec fn wf(&self) -> bool {
        &&& self.stack.wf()
        &&& self.bytecode@.len() <= usize::MAX
    }

    /// A machine in its initial state, with no program loaded.
    pub fn new() -> (vm: VM)
        ensures
            vm.wf(),
            vm@ == Machine::initial(),
    {
        let vm = VM {
            regs: [0, 0, 0, 0],
            flags: FlagSet::new(),
            stack: Stack::new(),
            heap: Heap::new(),
            bytecode: Vec::new(),
            prgrm_cntr: 0,
            base_ptr: 0,
            hdr_size: 0,
        };
        assert(vm.bytecode.len() == vm.bytecode@.len());
        assert(vm@.regs =~= Machine::initial().regs);
        assert(vm@.flags == Machine::initial().flags) by {
            assert(!vm.flags.value(Flag::Equal));
            assert(!vm.flags.value(Flag::NotEqual));
            assert(!vm.flags.value(Flag::Greater));
            assert(!vm.flags.value(Flag::Smaller));
            assert(!vm.flags.value(Flag::Overflow));
            assert(!vm.flags.value(Flag::Stop));
        }
        vm
    }

    /// Makes `bytecode` the program image. Nothing else changes: to run the
    /// new program from its start, load it into a new machine.
    pub fn load_program(&mut self, bytecode: Vec<u8>)
        ensures
            final(self)@ == old(self)@.load_program(bytecode@),
            old(self).wf() ==> final(self).wf(),
    {
        assert(bytecode.len() == bytecode@.len());
        self.bytecode = bytecode;
    }

    /// Whether the four bytes of the program image from `i` on are the
    /// sentinel that ends the header.
    pub fn is_at_end_header(&self, i: usize) -> (found: bool)
        requires
            i + 4 <= self@.program.len(),
        ensures
            found == sentinel_at(self@.program, i as int),
    {
        assert(self.bytecode.len() == self@.program.len());
        self.bytecode[i] == SENTINEL && self.bytecode[i + 1] == SENTINEL && self.bytecode[i + 2]
            == SENTINEL && self.bytecode[i + 3] == SENTINEL
    }

    /// Parses the header of the program image: finds the first sentinel,
    /// copies the bytes in front of it into the heap at the addresses they
    /// have in the image, and records where the instructions begin.
    pub fn parse_header(&mut self) -> (r: Result<(), Fault>)
        ensures
            old(self).wf() ==> final(self).wf(),
            old(self)@.header_malformed() ==> r == Err::<(), Fault>(Fault::MalformedHeader)
                && final(self)@ == old(self)@,
            !old(self)@.header_malformed() ==> r == Ok::<(), Fault>(()) && final(self)@ == old(
                self
            )@.parse_header(),
    {
        let len: usize = self.bytecode.len();
        if len < 4 {
            return Err(Fault::MalformedHeader);
        }
        let mut n: usize = 0;
        while n <= len - 4 && !self.is_at_end_header(n)
            invariant
                *self == *old(self),
                len == self@.program.len(),
                4 <= len,
                n <= len - 3,
                scan(self@.program, n as int) == header_len(self@.program),
            decreases len - n,
        {
            n += 1;
        }
        if n > usize::MAX - 4 {
            return Err(Fault::MalformedHeader);
        }
        let mut i: usize = 0;
        assert(self@.program.take(0) =~= Seq::<u8>::empty());
        while i < n
            invariant
                i <= n <= len - 3,
                len == self@.program.len(),
                self@ == (Machine {
                    heap: stored_bytes(old(self)@.heap, 0, self@.program.take(i as int)),
                    ..old(self)@
                }),
                old(self).wf() ==> self.wf(),
            decreases n - i,
        {
            assert(self@.program.take(i + 1).drop_last() =~= self@.program.take(i as int));
            self.heap.write(i, self.bytecode[i] as u32);
            i += 1;
        }
        self.hdr_size = n + 4;
        Ok(())
    }

    /// Whether the opcode under the program counter and the `k` bytes after
    /// it lie inside the program image.
    pub fn holds(&self, k: usize) -> (ok: bool)
        ensures
            ok == self@.holds(k as int),
    {
        let len: usize = self.bytecode.len();
        self.hdr_size < len && self.prgrm_cntr < len - self.hdr_size && k < len - self.hdr_size
            - self.prgrm_cntr
    }

    /// The byte `k` bytes after the opcode under the program counter. The
    /// program counter stays where it is.
    pub fn operand(&self, k: usize) -> (byte: u8)
        requires
            self@.holds(k as int),
        ensures
            byte == self@.byte(k as int),
    {
        assert(self.bytecode.len() == self@.program.len());
        self.bytecode[self.prgrm_cntr + self.hdr_size + k]
    }

    /// The literal whose four bytes start `k` bytes after the opcode under
    /// the program counter. The program counter stays where it is.
    pub fn literal_operand(&self, k: usize) -> (value: u32)
        requires
            self@.holds(k + 3),
        ensures
            value == self@.literal(k as int),
    {
        assert(self.bytecode.len() == self@.program.len());
        combine(self.operand(k), self.operand(k + 1), self.operand(k + 2), self.operand(k + 3))
    }

    /// Whether the operand byte `k` names a register.
    fn names_register(&self, k: usize) -> (ok: bool)
        requires
            self@.holds(k as int),
        ensures
            ok == self@.names_register(k as int),
    {
        self.operand(k) < 4
    }

    /// Whether every register operand of `op` names a register.
    fn registers_ok(&self, op: Opcode) -> (ok: bool)
        requires
            operand_len(op) > 0 ==> self@.holds(operand_len(op)),
        ensures
            ok == registers_valid(self@, op),
    {
        match op {
            Opcode::PushReg | Opcode::PopReg | Opcode::MovLitReg | Opcode::MovHeapReg
            | Opcode::MathNotReg | Opcode::CompareRegLit => self.names_register(1),
            Opcode::MovRegHeap => self.names_register(5),
            Opcode::MovRegReg | Opcode::CompareRegReg | Opcode::MathAddReg | Opcode::MathSubReg
            | Opcode::MathMulReg | Opcode::MathDivReg | Opcode::MathAndReg | Opcode::MathOrReg
            | Opcode::MathXorReg => self.names_register(1) && self.names_register(2),
            _ => true,
        }
    }

    /// Whether `op` is a division by zero.
    fn zero_divisor(&self, op: Opcode) -> (zero: bool)
        requires
            self.wf(),
            operand_len(op) > 0 ==> self@.holds(operand_len(op)),
            registers_valid(self@, op),
            self@.stack.len() >= stack_needs(op),
        ensures
            zero == divides_by_zero(self@, op),
    {
        match op {
            Opcode::MathDivReg => self.regs[self.operand(2) as usize] == 0,
            Opcode::MathDivStack => self.stack.peek_under(1) == 0,
            _ => false,
        }
    }

    /// Whether `op` asks for memory that cannot be addressed.
    fn out_of_memory(&self, op: Opcode) -> (out: bool)
        requires
            self.wf(),
            operand_len(op) > 0 ==> self@.holds(operand_len(op)),
        ensures
            out == exhausts_memory(self@, op),
    {
        match op {
            Opcode::PushLit | Opcode::PushReg | Opcode::PushHeap | Opcode::StackDupe => {
                !self.stack.can_push()
            },
            Opcode::PopHeap | Opcode::MovLitHeap | Opcode::MovRegHeap => {
                self.literal_operand(1) as usize >= usize::MAX
            },
            Opcode::MovHeapHeap => self.literal_operand(5) as usize >= usize::MAX,
            Opcode::Syscall => {
                self.regs[Register::A.index()] == 0 && self.regs[Register::C.index()] > usize::MAX
                    / 4
            },
            _ => false,
        }
    }

    /// The fault that instruction `op` would raise in the present state, if
    /// any. Every handler asks this before it touches the state. Only an
    /// instruction with operands depends on where the program counter stands.
    pub fn fault_for(&self, op: Opcode) -> (fault: Option<Fault>)
        requires
            self.wf(),
        ensures
            fault == fault_of(self@, op),
    {
        if op.operand_count() > 0 && !self.holds(op.operand_count()) {
            Some(Fault::ProgramCounterOutOfBounds)
        } else if !self.registers_ok(op) {
            Some(Fault::InvalidRegister)
        } else if self.stack.len() < op.stack_demand() {
            Some(Fault::StackUnderflow)
        } else if self.zero_divisor(op) {
            Some(Fault::DivideByZero)
        } else if self.out_of_memory(op) {
            Some(Fault::OutOfMemory)
        } else {
            None
        }
    }

    /// Moves the program counter on by one and returns the byte it then
    /// stands on: the next operand byte of the current instruction.
    pub fn fetch_reg(&mut self) -> (byte: u8)
        requires
            old(self)@.holds(1),
        ensures
            byte == old(self)@.byte(1),
            final(self)@ == old(self)@.advance(1),
            old(self).wf() ==> final(self).wf(),
    {
        assert(self.bytecode.len() == self@.program.len());
        self.prgrm_cntr += 1;
        self.bytecode[self.prgrm_cntr + self.hdr_size]
    }

    /// Fetches the next four operand bytes and returns the number they
    /// spell, most significant byte first.
    pub fn fetch_lit(&mut self) -> (value: u32)
        requires
            old(self)@.holds(4),
        ensures
            value == old(self)@.literal(1),
            final(self)@ == old(self)@.advance(4),
            old(self).wf() ==> final(self).wf(),
    {
        assert(self.bytecode.len() == self@.program.len());
        let b0: u8 = self.fetch_reg();
        assert(self@.holds(3));
        let b1: u8 = self.fetch_reg();
        assert(self@.holds(2));
        let b2: u8 = self.fetch_reg();
        assert(self@.holds(1));
        let b3: u8 = self.fetch_reg();
        assert(self@ =~= old(self)@.advance(4));
        combine(b0, b1, b2, b3)
    }

    /// Sets the four ordering flags from the unsigned comparison of `a`
    /// with `b`.
    pub fn compare_numbers(&mut self, a: u32, b: u32)
        ensures
            final(self)@ == old(self)@.compared(a, b),
            old(self).wf() ==> final(self).wf(),
    {
        self.flags.set(Flag::Equal, a == b);
        self.flags.set(Flag::NotEqual, a != b);
        self.flags.set(Flag::Greater, a > b);
        self.flags.set(Flag::Smaller, a < b);
    }
}

/// The result of a step whose instruction asks nothing of the host.
fn quiet(r: Result<(), Fault>) -> (out: Result<Option<HostCall>, Fault>)
    ensures
        r is Ok ==> out == Ok::<Option<HostCall>, Fault>(None),
        r matches Err(fault) ==> out == Err::<Option<HostCall>, Fault>(fault),
{
    match r {
        Ok(()) => Ok(None),
        Err(fault) => Err(fault),
    }
}

impl VM {
    /// Executes the instruction under the program counter: decodes the
    /// opcode and hands over to its handler. The counter is left on the last
    /// byte of the instruction; to move it on to the next opcode is the
    /// business of the execution loop.
    pub fn step_program(&mut self) -> (r: Result<Option<HostCall>, Fault>)
        requires
            old(self).wf(),
        ensures
            final(self).wf(),
            takes_step(old(self)@, final(self)@, r),
    {
        if !self.holds(0) {
            return Err(Fault::ProgramCounterOutOfBounds);
        }
        let instruction: u8 = self.operand(0);
        match Opcode::decode(instruction) {
            Opcode::Exit => quiet(exit(self)),
            Opcode::PushLit => quiet(push_lit(self)),
            Opcode::PushReg => quiet(push_reg(self)),
            Opcode::PopReg => quiet(pop_reg(self)),
            Opcode::PopHeap => quiet(pop_heap(self)),
            Opcode::StackDupe => quiet(stack_dupe(self)),
            Opcode::MovLitReg => quiet(mov_lit_reg(self)),
            Opcode::MovLitHeap => quiet(mov_lit_heap(self)),
            Opcode::MovHeapReg => quiet(mov_heap_reg(self)),
            Opcode::MovRegHeap => quiet(mov_reg_heap(self)),
            Opcode::MovRegReg => quiet(mov_reg_reg(self)),
            Opcode::MovHeapHeap => quiet(mov_heap_heap(self)),
            Opcode::PushHeap => quiet(push_heap(self)),
            Opcode::MathAddReg => quiet(math_add_reg(self)),
            Opcode::MathAddStack => quiet(math_add_stack(self)),
            Opcode::MathSubReg => quiet(math_sub_reg(self)),
            Opcode::MathSubStack => quiet(math_sub_stack(self)),
            Opcode::MathMulReg => quiet(math_mul_reg(self)),
            Opcode::MathMulStack => quiet(math_mul_stack(self)),
            Opcode::MathDivReg => quiet(math_div_reg(self)),
            Opcode::MathDivStack => quiet(math_div_stack(self)),
            Opcode::MathNotReg => quiet(math_not_reg(self)),
            Opcode::MathNotStack => quiet(math_not_stack(self)),
            Opcode::MathAndReg => quiet(math_and_reg(self)),
            Opcode::MathAndStack => quiet(math_and_stack(self)),
            Opcode::MathOrReg => quiet(math_or_reg(self)),
            Opcode::MathOrStack => quiet(math_or_stack(self)),
            Opcode::MathXorReg => quiet(math_xor_reg(self)),
            Opcode::MathXorStack => quiet(math_xor_stack(self)),
            Opcode::JumpAbsolute => quiet(jump_absolute(self)),
            Opcode::CompareRegReg => quiet(compare_reg_reg(self)),
            Opcode::CompareRegLit => quiet(compare_reg_lit(self)),
            Opcode::CompareStackLit => quiet(compare_stack_lit(self)),
            Opcode::JumpEqual => quiet(jump_equal(self)),
            Opcode::JumpNotEqual => quiet(jump_not_equal(self)),
            Opcode::JumpGreater => quiet(jump_greater(self)),
            Opcode::JumpSmaller => quiet(jump_smaller(self)),
            Opcode::JumpOverflow => quiet(jump_overflow(self)),
            Opcode::Syscall => syscall(self),
            Opcode::Nop => quiet(nop(self)),
        }
    }

    /// Continues the run for at most `max_steps` instructions: executes
    /// instruction after instruction, moving the program counter on by one
    /// after each, until the stop flag is set, an instruction faults, a
    /// syscall asks something of the host, or the budget is used up.
    pub fn resume_program(&mut self, max_steps: usize) -> (r: Result<Outcome, Fault>)
        requires
            old(self).wf(),
        ensures
            final(self).wf(),
            (final(self)@, r) == run(old(self)@, max_steps as nat),
    {
        let mut left: usize = max_steps;
        loop
            invariant
                self.wf(),
                run(self@, left as nat) == run(old(self)@, max_steps as nat),
            decreases left,
        {
            if self.flags.get(Flag::Stop) {
                return Ok(Outcome::Stopped);
            }
            if left == 0 {
                return Ok(Outcome::StepLimit);
            }
            match self.step_program() {
                Err(fault) => {
                    return Err(fault);
                },
                Ok(asked) => {
                    self.prgrm_cntr = self.prgrm_cntr.wrapping_add(1);
                    match asked {
                        Some(call) => {
                            return Ok(Outcome::Host(call));
                        },
                        None => {
                            left -= 1;
                        },
                    }
                },
            }
        }
    }

    /// Runs the loaded program from its header on for at most `max_steps`
    /// instructions: parses the header, then proceeds as `resume_program`.
    pub fn run_program(&mut self, max_steps: usize) -> (r: Result<Outcome, Fault>)
        requires
            old(self).wf(),
        ensures
            final(self).wf(),
            (final(self)@, r) == run_from_header(old(self)@, max_steps as nat),
    {
        match self.parse_header() {
            Err(fault) => Err(fault),
            Ok(()) => self.resume_program(max_steps),
        }
    }
}

impl Default for VM {
    fn default() -> (vm: VM)
        ensures
            vm.wf(),
            vm@ == Machine::initial(),
    {
        VM::new()
    }
}

} // verus!
