//! Bitwise instructions on registers or on the topmost stack values. None
//! of them touches a flag.

use vstd::prelude::*;
use crate::isa::{effect, executes, Opcode};
use crate::machine::Fault;
use crate::vm::VM;

verus! {

/// Complements every bit of the register operand.
pub fn math_not_reg(vm: &mut VM) -> (r: Result<(), Fault>)
    requires
        old(vm).wf(),
    ensures
        final(vm).wf(),
        executes(old(vm)@, final(vm)@, r, Opcode::MathNotReg),
{
    match vm.fault_for(Opcode::MathNotReg) {
        Some(fault) => {
            return Err(fault);
        },
        None => {},
    }
    let reg: usize = vm.fetch_reg() as usize;
    vm.regs[reg] = !vm.regs[reg];
    assert(vm@ =~= effect(old(vm)@, Opcode::MathNotReg));
    Ok(())
}

/// Replaces the top of the stack by its bitwise complement.
pub fn math_not_stack(vm: &mut VM) -> (r: Result<(), Fault>)
    requires
        old(vm).wf(),
    ensures
        final(vm).wf(),
        executes(old(vm)@, final(vm)@, r, Opcode::MathNotStack),
{
    match vm.fault_for(Opcode::MathNotStack) {
        Some(fault) => {
            return Err(fault);
        },
        None => {},
    }
    proof {
        vm.stack.lemma_bounds();
    }
    match vm.stack.pop() {
        Some(value) => {
            vm.stack.push(!value);
            assert(vm@ =~= effect(old(vm)@, Opcode::MathNotStack));
            Ok(())
        },
        None => Err(Fault::StackUnderflow),
    }
}

/// Replaces the first register operand by its bitwise conjunction with the
/// second.
pub fn math_and_reg(vm: &mut VM) -> (r: Result<(), Fault>)
    requires
        old(vm).wf(),
    ensures
        final(vm).wf(),
        executes(old(vm)@, final(vm)@, r, Opcode::MathAndReg),
{
    match vm.fault_for(Opcode::MathAndReg) {
        Some(fault) => {
            return Err(fault);
        },
        None => {},
    }
    let a: usize = vm.fetch_reg() as usize;
    let b: usize = vm.fetch_reg() as usize;
    let x: usize = vm.regs[a];
    let y: usize = vm.regs[b];
    vm.regs[a] = x & y;
    assert(vm@ =~= effect(old(vm)@, Opcode::MathAndReg));
    Ok(())
}

/// Replaces the two topmost stack values by their bitwise conjunction.
pub fn math_and_stack(vm: &mut VM) -> (r: Result<(), Fault>)
    requires
        old(vm).wf(),
    ensures
        final(vm).wf(),
        executes(old(vm)@, final(vm)@, r, Opcode::MathAndStack),
{
    match vm.fault_for(Opcode::MathAndStack) {
        Some(fault) => {
            return Err(fault);
        },
        None => {},
    }
    proof {
        vm.stack.lemma_bounds();
    }
    let first: Option<u32> = vm.stack.pop();
    let second: Option<u32> = vm.stack.pop();
    match (first, second) {
        (Some(a), Some(b)) => {
            vm.stack.push(a & b);
            assert(vm@ =~= effect(old(vm)@, Opcode::MathAndStack));
            Ok(())
        },
        _ => Err(Fault::StackUnderflow),
    }
}

/// Replaces the first register operand by its bitwise disjunction with the
/// second.
pub fn math_or_reg(vm: &mut VM) -> (r: Result<(), Fault>)
    requires
        old(vm).wf(),
    ensures
        final(vm).wf(),
        executes(old(vm)@, final(vm)@, r, Opcode::MathOrReg),
{
    match vm.fault_for(Opcode::MathOrReg) {
        Some(fault) => {
            return Err(fault);
        },
        None => {},
    }
    let a: usize = vm.fetch_reg() as usize;
    let b: usize = vm.fetch_reg() as usize;
    let x: usize = vm.regs[a];
    let y: usize = vm.regs[b];
    vm.regs[a] = x | y;
    assert(vm@ =~= effect(old(vm)@, Opcode::MathOrReg));
    Ok(())
}

/// Replaces the two topmost stack values by their bitwise disjunction.
pub fn math_or_stack(vm: &mut VM) -> (r: Result<(), Fault>)
    requires
        old(vm).wf(),
    ensures
        final(vm).wf(),
        executes(old(vm)@, final(vm)@, r, Opcode::MathOrStack),
{
    match vm.fault_for(Opcode::MathOrStack) {
        Some(fault) => {
            return Err(fault);
        },
        None => {},
    }
    proof {
        vm.stack.lemma_bounds();
    }
    let first: Option<u32> = vm.stack.pop();
    let second: Option<u32> = vm.stack.pop();
    match (first, second) {
        (Some(a), Some(b)) => {
            vm.stack.push(a | b);
            assert(vm@ =~= effect(old(vm)@, Opcode::MathOrStack));
            Ok(())
        },
        _ => Err(Fault::StackUnderflow),
    }
}

/// Replaces the first register operand by its bitwise exclusive disjunction with the
/// second.
pub fn math_xor_reg(vm: &mut VM) -> (r: Result<(), Fault>)
    requires
        old(vm).wf(),
    ensures
        final(vm).wf(),
        executes(old(vm)@, final(vm)@, r, Opcode::MathXorReg),
{
    match vm.fault_for(Opcode::MathXorReg) {
        Some(fault) => {
            return Err(fault);
        },
        None => {},
    }
    let a: usize = vm.fetch_reg() as usize;
    let b: usize = vm.fetch_reg() as usize;
    let x: usize = vm.regs[a];
    let y: usize = vm.regs[b];
    vm.regs[a] = x ^ y;
    assert(vm@ =~= effect(old(vm)@, Opcode::MathXorReg));
    Ok(())
}

/// Replaces the two topmost stack values by their bitwise exclusive disjunction.
pub fn math_xor_stack(vm: &mut VM) -> (r: Result<(), Fault>)
    requires
        old(vm).wf(),
    ensures
        final(vm).wf(),
        executes(old(vm)@, final(vm)@, r, Opcode::MathXorStack),
{
    match vm.fault_for(Opcode::MathXorStack) {
        Some(fault) => {
            return Err(fault);
        },
        None => {},
    }
    proof {
        vm.stack.lemma_bounds();
    }
    let first: Option<u32> = vm.stack.pop();
    let second: Option<u32> = vm.stack.pop();
    match (first, second) {
        (Some(a), Some(b)) => {
            vm.stack.push(a ^ b);
            assert(vm@ =~= effect(old(vm)@, Opcode::MathXorStack));
            Ok(())
        },
        _ => Err(Fault::StackUnderflow),
    }
}

} // verus!
