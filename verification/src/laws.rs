//! Facts about the instruction set that hold in every state of the machine.

use vstd::prelude::*;
use crate::header::{header_len, lemma_first_sentinel, sentinel_at};
use crate::heap::{cell_at, lemma_stored_bytes};
use crate::flags::Flag;
use crate::isa::{asks, current, effect, fault_of, operand_len, run, Opcode};
use crate::machine::{Fault, Machine, Outcome};

verus! {

/// A sum of two registers that exceeds the machine word raises the overflow
/// flag and leaves the sum less the word's range in the first register; a
/// sum that fits leaves the flag as it was and the sum in the register.
pub proof fn lemma_add_reg_wraps(s: Machine)
    requires
        s.regs.len() == 4,
        fault_of(s, Opcode::MathAddReg) is None,
    ensures
        ({
            let sum = s.reg_at(1) + s.reg_at(2);
            let after = effect(s, Opcode::MathAddReg);
            &&& sum > usize::MAX ==> after.flags.overflow && after.regs[s.byte(1) as int] == sum
                - usize::MAX - 1
            &&& sum <= usize::MAX ==> after.flags == s.flags && after.regs[s.byte(1) as int]
                == sum
        }),
{
}

/// A difference of two registers whose subtrahend is the greater raises the
/// overflow flag and leaves the difference plus the word's range in the
/// first register; any other leaves the flag as it was and the difference
/// in the register.
pub proof fn lemma_sub_reg_wraps(s: Machine)
    requires
        s.regs.len() == 4,
        fault_of(s, Opcode::MathSubReg) is None,
    ensures
        ({
            let x = s.reg_at(1);
            let y = s.reg_at(2);
            let after = effect(s, Opcode::MathSubReg);
            &&& x < y ==> after.flags.overflow && after.regs[s.byte(1) as int] == x - y
                + usize::MAX + 1
            &&& x >= y ==> after.flags == s.flags && after.regs[s.byte(1) as int] == x - y
        }),
{
}

/// A sum of the two topmost stack values that exceeds 32 bits raises the
/// overflow flag and leaves the sum less 2^32 on the stack.
pub proof fn lemma_add_stack_wraps(s: Machine)
    requires
        fault_of(s, Opcode::MathAddStack) is None,
    ensures
        ({
            let sum = s.top() + s.second();
            let after = effect(s, Opcode::MathAddStack);
            &&& after.stack.len() == s.stack.len() - 1
            &&& sum > u32::MAX ==> after.flags.overflow && after.top() == sum - 0x1_0000_0000
            &&& sum <= u32::MAX ==> after.flags == s.flags && after.top() == sum
        }),
{
}

/// After a comparison exactly one of the flags equal, greater and smaller
/// is set, and the flag not-equal is the opposite of equal. The overflow
/// and stop flags keep their values.
pub proof fn lemma_compared_flags(s: Machine, a: u32, b: u32)
    ensures
        ({
            let f = s.compared(a, b).flags;
            &&& f.equal <==> a == b
            &&& f.greater <==> a > b
            &&& f.smaller <==> a < b
            &&& f.equal || f.greater || f.smaller
            &&& !(f.equal && f.greater)
            &&& !(f.equal && f.smaller)
            &&& !(f.greater && f.smaller)
            &&& f.not_equal == !f.equal
            &&& f.overflow == s.flags.overflow
            &&& f.stop == s.flags.stop
        }),
{
}

/// A program that begins with the sentinel has an empty header: its size is
/// that of the sentinel and parsing it leaves the heap as it was.
pub proof fn lemma_empty_header(s: Machine)
    requires
        sentinel_at(s.program, 0),
    ensures
        !s.header_malformed(),
        s.parse_header().header_size == 4,
        s.parse_header().heap == s.heap,
{
    lemma_first_sentinel(s.program, 0);
    assert(s.program.take(0) =~= Seq::<u8>::empty());
}

/// A program with its first sentinel after `n` bytes has a header of these
/// `n` bytes: its size is `n + 4`, and after parsing the heap reads at each
/// address below `n` as the byte that the program has there, and at every
/// other address as before.
pub proof fn lemma_header_before_sentinel(s: Machine, n: int)
    requires
        sentinel_at(s.program, n),
        forall|i: int| 0 <= i < n ==> !sentinel_at(s.program, i),
        n + 4 <= usize::MAX,
    ensures
        !s.header_malformed(),
        s.parse_header().header_size == n + 4,
        forall|a: int| 0 <= a < n ==> cell_at(s.parse_header().heap, a) == s.program[a],
        forall|a: int| !(0 <= a < n) ==> cell_at(s.parse_header().heap, a) == cell_at(s.heap, a),
{
    lemma_first_sentinel(s.program, n);
    lemma_stored_bytes(s.heap, 0, s.program.take(n));
}

/// After an absolute jump and the move of the program counter that ends
/// every instruction, the counter is the jump's target, so that the next
/// opcode is fetched from the target: not from the byte before it and not
/// from the byte after it.
pub proof fn lemma_jump_lands_on_target(s: Machine)
    requires
        fault_of(s, Opcode::JumpAbsolute) is None,
    ensures
        ({
            let landed = effect(s, Opcode::JumpAbsolute).next();
            &&& landed.pc == s.literal(1)
            &&& landed.byte_index(0) == s.literal(1) + s.header_size
            &&& landed == Machine { pc: s.literal(1) as usize, ..s }
        }),
{
}

/// The flag that decides whether the conditional jump `op` is taken.
pub open spec fn deciding_flag(op: Opcode) -> Flag {
    match op {
        Opcode::JumpEqual => Flag::Equal,
        Opcode::JumpNotEqual => Flag::NotEqual,
        Opcode::JumpGreater => Flag::Greater,
        Opcode::JumpSmaller => Flag::Smaller,
        _ => Flag::Overflow,
    }
}

/// Whether `op` is one of the five conditional jumps.
pub open spec fn is_conditional_jump(op: Opcode) -> bool {
    op == Opcode::JumpEqual || op == Opcode::JumpNotEqual || op == Opcode::JumpGreater || op
        == Opcode::JumpSmaller || op == Opcode::JumpOverflow
}

/// A conditional jump lands on its target when its flag is set, and on the
/// opcode after its operand when the flag is clear. Either way nothing but
/// the program counter changes.
pub proof fn lemma_conditional_jump_lands(s: Machine, op: Opcode)
    requires
        is_conditional_jump(op),
        fault_of(s, op) is None,
        s.program.len() <= usize::MAX,
    ensures
        ({
            let landed = effect(s, op).next();
            let taken = s.flags.value(deciding_flag(op));
            &&& taken ==> landed.pc == s.literal(1)
            &&& !taken ==> landed.pc == s.pc + 5
            &&& landed == Machine { pc: landed.pc, ..s }
        }),
{
}

/// Whether `op` is a jump, conditional or not.
pub open spec fn is_jump(op: Opcode) -> bool {
    op == Opcode::JumpAbsolute || is_conditional_jump(op)
}

/// Every instruction but a jump, fetched from inside the program, leaves
/// the program counter, once the execution loop has moved it on, on the byte
/// after the instruction's last operand: on the next opcode.
pub proof fn lemma_counter_lands_on_next_opcode(s: Machine, op: Opcode)
    requires
        s.holds(0),
        !is_jump(op),
        fault_of(s, op) is None,
        s.program.len() <= usize::MAX,
    ensures
        effect(s, op).next().pc == s.pc + operand_len(op) + 1,
{
}

/// No instruction changes the program image, the header's size or the base
/// pointer, and none lets the heap shrink.
pub proof fn lemma_effect_frame(s: Machine, op: Opcode)
    requires
        s.regs.len() == 4,
        fault_of(s, op) is None,
    ensures
        effect(s, op).program == s.program,
        effect(s, op).header_size == s.header_size,
        effect(s, op).base == s.base,
        effect(s, op).heap.len() >= s.heap.len(),
        effect(s, op).regs.len() == s.regs.len(),
{
}

/// No instruction puts more values on a stack that has slots than the
/// stack has slots, and none takes slots away.
pub proof fn lemma_effect_keeps_stack_bounds(s: Machine, op: Opcode)
    requires
        fault_of(s, op) is None,
        0 < s.stack_capacity,
        s.stack.len() <= s.stack_capacity,
    ensures
        effect(s, op).stack.len() <= effect(s, op).stack_capacity,
        effect(s, op).stack_capacity >= s.stack_capacity,
{
}

/// The budget only cuts a run short: a run of `first + second` steps ends
/// where a run of `first` steps ends, unless that one ends for want of
/// steps, and then it ends where `second` more steps from there end.
pub proof fn lemma_run_resumes(s: Machine, first: nat, second: nat)
    ensures
        run(s, first + second) == if run(s, first).1 == Ok::<Outcome, Fault>(Outcome::StepLimit) {
            run(run(s, first).0, second)
        } else {
            run(s, first)
        },
    decreases first,
{
    if s.flags.stop {
    } else if first == 0 {
    } else if !s.holds(0) {
    } else if fault_of(s, current(s)) is Some {
    } else if asks(s) is Some {
    } else {
        lemma_run_resumes(effect(s, current(s)).next(), (first - 1) as nat, second);
    }
}

/// A run that ends because the program stopped ends the same, whatever
/// larger budget it is given.
pub proof fn lemma_stopped_run_ignores_budget(s: Machine, steps: nat, more: nat)
    requires
        run(s, steps).1 == Ok::<Outcome, Fault>(Outcome::Stopped),
    ensures
        run(s, steps + more) == run(s, steps),
{
    lemma_run_resumes(s, steps, more);
}

} // verus!
