//! Comparisons. Each sets the four ordering flags from the unsigned
//! comparison of its two operands, registers being taken by their low 32
//! bits.

use vstd::prelude::*;
use crate::isa::{effect, executes, Opcode};
use crate::machine::Fault;
use crate::vm::VM;

verus! {

/// Compares the first register operand with the second.
pub fn compare_reg_reg(vm: &mut VM) -> (r: Result<(), Fault>)
    requires
        old(vm).wf(),
    ensures
        final(vm).wf(),
        executes(old(vm)@, final(vm)@, r, Opcode::CompareRegReg),
{
    match vm.fault_for(Opcode::CompareRegReg) {
        Some(fault) => {
            return Err(fault);
        },
        None => {},
    }
    let a: usize = vm.regs[vm.fetch_reg() as usize];
    let b: usize = vm.regs[vm.fetch_reg() as usize];
    vm.compare_numbers(
        #[verifier::truncate]
        (a as u32),
        #[verifier::truncate]
        (b as u32),
    );
    assert(vm@ =~= effect(old(vm)@, Opcode::CompareRegReg));
    Ok(())
}

/// Compares the register operand with the literal operand.
pub fn compare_reg_lit(vm: &mut VM) -> (r: Result<(), Fault>)
    requires
        old(vm).wf(),
    ensures
        final(vm).wf(),
        executes(old(vm)@, final(vm)@, r, Opcode::CompareRegLit),
{
    match vm.fault_for(Opcode::CompareRegLit) {
        Some(fault) => {
            return Err(fault);
        },
        None => {},
    }
    let a: usize = vm.regs[vm.fetch_reg() as usize];
    let b: u32 = vm.fetch_lit();
    vm.compare_numbers(
        #[verifier::truncate]
        (a as u32),
        b,
    );
    assert(vm@ =~= effect(old(vm)@, Opcode::CompareRegLit));
    Ok(())
}

/// Compares the top of the stack, which stays there, with the literal
/// operand.
pub fn compare_stack_lit(vm: &mut VM) -> (r: Result<(), Fault>)
    requires
        old(vm).wf(),
    ensures
        final(vm).wf(),
        executes(old(vm)@, final(vm)@, r, Opcode::CompareStackLit),
{
    match vm.fault_for(Opcode::CompareStackLit) {
        Some(fault) => {
            return Err(fault);
        },
        None => {},
    }
    let a: u32 = vm.stack.peek();
    let b: u32 = vm.fetch_lit();
    vm.compare_numbers(a, b);
    assert(vm@ =~= effect(old(vm)@, Opcode::CompareStackLit));
    Ok(())
}

} // verus!
