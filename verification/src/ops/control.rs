//! Instructions that steer execution: stopping, idling and jumping.

use vstd::prelude::*;
use crate::flags::Flag;
use crate::isa::{effect, executes, Opcode};
use crate::machine::Fault;
use crate::vm::VM;

verus! {

/// Does nothing: what every unassigned opcode does.
pub fn nop(vm: &mut VM) -> (r: Result<(), Fault>)
    requires
        old(vm).wf(),
    ensures
        final(vm).wf(),
        executes(old(vm)@, final(vm)@, r, Opcode::Nop),
{
    match vm.fault_for(Opcode::Nop) {
        Some(fault) => {
            return Err(fault);
        },
        None => {},
    }
    assert(vm@ =~= effect(old(vm)@, Opcode::Nop));
    Ok(())
}

/// Sets the stop flag, which ends the run after this instruction.
pub fn exit(vm: &mut VM) -> (r: Result<(), Fault>)
    requires
        old(vm).wf(),
    ensures
        final(vm).wf(),
        executes(old(vm)@, final(vm)@, r, Opcode::Exit),
{
    match vm.fault_for(Opcode::Exit) {
        Some(fault) => {
            return Err(fault);
        },
        None => {},
    }
    vm.flags.set(Flag::Stop, true);
    assert(vm@ =~= effect(old(vm)@, Opcode::Exit));
    Ok(())
}

/// Jumps to the address given as literal operand. The counter is left one
/// short of it, for the execution loop to add one.
pub fn jump_absolute(vm: &mut VM) -> (r: Result<(), Fault>)
    requires
        old(vm).wf(),
    ensures
        final(vm).wf(),
        executes(old(vm)@, final(vm)@, r, Opcode::JumpAbsolute),
{
    match vm.fault_for(Opcode::JumpAbsolute) {
        Some(fault) => {
            return Err(fault);
        },
        None => {},
    }
    let addr: u32 = vm.fetch_lit();
    vm.prgrm_cntr = (addr as usize).wrapping_sub(1);
    assert(vm@ =~= effect(old(vm)@, Opcode::JumpAbsolute));
    Ok(())
}

/// Jumps to the address given as literal operand if the equal flag is set,
/// and only skips the operand otherwise.
pub fn jump_equal(vm: &mut VM) -> (r: Result<(), Fault>)
    requires
        old(vm).wf(),
    ensures
        final(vm).wf(),
        executes(old(vm)@, final(vm)@, r, Opcode::JumpEqual),
{
    match vm.fault_for(Opcode::JumpEqual) {
        Some(fault) => {
            return Err(fault);
        },
        None => {},
    }
    let addr: u32 = vm.fetch_lit();
    if vm.flags.get(Flag::Equal) {
        vm.prgrm_cntr = (addr as usize).wrapping_sub(1);
    }
    assert(vm@ =~= effect(old(vm)@, Opcode::JumpEqual));
    Ok(())
}

/// Jumps to the address given as literal operand if the not-equal flag is set,
/// and only skips the operand otherwise.
pub fn jump_not_equal(vm: &mut VM) -> (r: Result<(), Fault>)
    requires
        old(vm).wf(),
    ensures
        final(vm).wf(),
        executes(old(vm)@, final(vm)@, r, Opcode::JumpNotEqual),
{
    match vm.fault_for(Opcode::JumpNotEqual) {
        Some(fault) => {
            return Err(fault);
        },
        None => {},
    }
    let addr: u32 = vm.fetch_lit();
    if vm.flags.get(Flag::NotEqual) {
        vm.prgrm_cntr = (addr as usize).wrapping_sub(1);
    }
    assert(vm@ =~= effect(old(vm)@, Opcode::JumpNotEqual));
    Ok(())
}

/// Jumps to the address given as literal operand if the greater flag is set,
/// and only skips the operand otherwise.
pub fn jump_greater(vm: &mut VM) -> (r: Result<(), Fault>)
    requires
        old(vm).wf(),
    ensures
        final(vm).wf(),
        executes(old(vm)@, final(vm)@, r, Opcode::JumpGreater),
{
    match vm.fault_for(Opcode::JumpGreater) {
        Some(fault) => {
            return Err(fault);
        },
        None => {},
    }
    let addr: u32 = vm.fetch_lit();
    if vm.flags.get(Flag::Greater) {
        vm.prgrm_cntr = (addr as usize).wrapping_sub(1);
    }
    assert(vm@ =~= effect(old(vm)@, Opcode::JumpGreater));
    Ok(())
}

/// Jumps to the address given as literal operand if the smaller flag is set,
/// and only skips the operand otherwise.
pub fn jump_smaller(vm: &mut VM) -> (r: Result<(), Fault>)
    requires
        old(vm).wf(),
    ensures
        final(vm).wf(),
        executes(old(vm)@, final(vm)@, r, Opcode::JumpSmaller),
{
    match vm.fault_for(Opcode::JumpSmaller) {
        Some(fault) => {
            return Err(fault);
        },
        None => {},
    }
    let addr: u32 = vm.fetch_lit();
    if vm.flags.get(Flag::Smaller) {
        vm.prgrm_cntr = (addr as usize).wrapping_sub(1);
    }
    assert(vm@ =~= effect(old(vm)@, Opcode::JumpSmaller));
    Ok(())
}

/// Jumps to the address given as literal operand if the overflow flag is set,
/// and only skips the operand otherwise.
pub fn jump_overflow(vm: &mut VM) -> (r: Result<(), Fault>)
    requires
        old(vm).wf(),
    ensures
        final(vm).wf(),
        executes(old(vm)@, final(vm)@, r, Opcode::JumpOverflow),
{
    match vm.fault_for(Opcode::JumpOverflow) {
        Some(fault) => {
            return Err(fault);
        },
        None => {},
    }
    let addr: u32 = vm.fetch_lit();
    if vm.flags.get(Flag::Overflow) {
        vm.prgrm_cntr = (addr as usize).wrapping_sub(1);
    }
    assert(vm@ =~= effect(old(vm)@, Opcode::JumpOverflow));
    Ok(())
}

} // verus!
