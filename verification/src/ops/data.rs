//! Instructions that move values between literals, registers, the stack and
//! the heap. None of them touches a flag.

use vstd::prelude::*;
use crate::isa::{effect, executes, Opcode};
use crate::machine::Fault;
use crate::vm::VM;

verus! {

/// Pushes the literal operand.
pub fn push_lit(vm: &mut VM) -> (r: Result<(), Fault>)
    requires
        old(vm).wf(),
    ensures
        final(vm).wf(),
        executes(old(vm)@, final(vm)@, r, Opcode::PushLit),
{
    match vm.fault_for(Opcode::PushLit) {
        Some(fault) => {
            return Err(fault);
        },
        None => {},
    }
    let lit: u32 = vm.fetch_lit();
    vm.stack.push(lit);
    assert(vm@ =~= effect(old(vm)@, Opcode::PushLit));
    Ok(())
}

/// Pushes the low 32 bits of the register operand.
pub fn push_reg(vm: &mut VM) -> (r: Result<(), Fault>)
    requires
        old(vm).wf(),
    ensures
        final(vm).wf(),
        executes(old(vm)@, final(vm)@, r, Opcode::PushReg),
{
    match vm.fault_for(Opcode::PushReg) {
        Some(fault) => {
            return Err(fault);
        },
        None => {},
    }
    let reg: u8 = vm.fetch_reg();
    let value: usize = vm.regs[reg as usize];
    vm.stack.push(
        #[verifier::truncate]
        (value as u32),
    );
    assert(vm@ =~= effect(old(vm)@, Opcode::PushReg));
    Ok(())
}

/// Pops the top of the stack into the register operand.
pub fn pop_reg(vm: &mut VM) -> (r: Result<(), Fault>)
    requires
        old(vm).wf(),
    ensures
        final(vm).wf(),
        executes(old(vm)@, final(vm)@, r, Opcode::PopReg),
{
    match vm.fault_for(Opcode::PopReg) {
        Some(fault) => {
            return Err(fault);
        },
        None => {},
    }
    let reg: u8 = vm.fetch_reg();
    match vm.stack.pop() {
        Some(value) => {
            vm.regs[reg as usize] = value as usize;
            assert(vm@ =~= effect(old(vm)@, Opcode::PopReg));
            Ok(())
        },
        None => Err(Fault::StackUnderflow),
    }
}

/// Pops the top of the stack into the heap cell at the address operand.
pub fn pop_heap(vm: &mut VM) -> (r: Result<(), Fault>)
    requires
        old(vm).wf(),
    ensures
        final(vm).wf(),
        executes(old(vm)@, final(vm)@, r, Opcode::PopHeap),
{
    match vm.fault_for(Opcode::PopHeap) {
        Some(fault) => {
            return Err(fault);
        },
        None => {},
    }
    let addr: u32 = vm.fetch_lit();
    match vm.stack.pop() {
        Some(value) => {
            vm.heap.write(addr as usize, value);
            assert(vm@ =~= effect(old(vm)@, Opcode::PopHeap));
            Ok(())
        },
        None => Err(Fault::StackUnderflow),
    }
}

/// Pushes a copy of the top of the stack.
pub fn stack_dupe(vm: &mut VM) -> (r: Result<(), Fault>)
    requires
        old(vm).wf(),
    ensures
        final(vm).wf(),
        executes(old(vm)@, final(vm)@, r, Opcode::StackDupe),
{
    match vm.fault_for(Opcode::StackDupe) {
        Some(fault) => {
            return Err(fault);
        },
        None => {},
    }
    let top: u32 = vm.stack.peek();
    vm.stack.push(top);
    assert(vm@ =~= effect(old(vm)@, Opcode::StackDupe));
    Ok(())
}

/// Copies the literal operand into the register operand.
pub fn mov_lit_reg(vm: &mut VM) -> (r: Result<(), Fault>)
    requires
        old(vm).wf(),
    ensures
        final(vm).wf(),
        executes(old(vm)@, final(vm)@, r, Opcode::MovLitReg),
{
    match vm.fault_for(Opcode::MovLitReg) {
        Some(fault) => {
            return Err(fault);
        },
        None => {},
    }
    let reg: u8 = vm.fetch_reg();
    let value: u32 = vm.fetch_lit();
    vm.regs[reg as usize] = value as usize;
    assert(vm@ =~= effect(old(vm)@, Opcode::MovLitReg));
    Ok(())
}

/// Copies the literal operand into the heap cell at the address operand.
pub fn mov_lit_heap(vm: &mut VM) -> (r: Result<(), Fault>)
    requires
        old(vm).wf(),
    ensures
        final(vm).wf(),
        executes(old(vm)@, final(vm)@, r, Opcode::MovLitHeap),
{
    match vm.fault_for(Opcode::MovLitHeap) {
        Some(fault) => {
            return Err(fault);
        },
        None => {},
    }
    let addr: u32 = vm.fetch_lit();
    let value: u32 = vm.fetch_lit();
    vm.heap.write(addr as usize, value);
    assert(vm@ =~= effect(old(vm)@, Opcode::MovLitHeap));
    Ok(())
}

/// Copies the heap cell at the address operand into the register operand.
pub fn mov_heap_reg(vm: &mut VM) -> (r: Result<(), Fault>)
    requires
        old(vm).wf(),
    ensures
        final(vm).wf(),
        executes(old(vm)@, final(vm)@, r, Opcode::MovHeapReg),
{
    match vm.fault_for(Opcode::MovHeapReg) {
        Some(fault) => {
            return Err(fault);
        },
        None => {},
    }
    let reg: u8 = vm.fetch_reg();
    let addr: u32 = vm.fetch_lit();
    vm.regs[reg as usize] = vm.heap.read(addr as usize) as usize;
    assert(vm@ =~= effect(old(vm)@, Opcode::MovHeapReg));
    Ok(())
}

/// Copies the low 32 bits of the register operand into the heap cell at the
/// address operand.
pub fn mov_reg_heap(vm: &mut VM) -> (r: Result<(), Fault>)
    requires
        old(vm).wf(),
    ensures
        final(vm).wf(),
        executes(old(vm)@, final(vm)@, r, Opcode::MovRegHeap),
{
    match vm.fault_for(Opcode::MovRegHeap) {
        Some(fault) => {
            return Err(fault);
        },
        None => {},
    }
    let addr: u32 = vm.fetch_lit();
    let reg: u8 = vm.fetch_reg();
    let value: usize = vm.regs[reg as usize];
    vm.heap.write(
        addr as usize,
        #[verifier::truncate]
        (value as u32),
    );
    assert(vm@ =~= effect(old(vm)@, Opcode::MovRegHeap));
    Ok(())
}

/// Copies the second register operand into the first.
pub fn mov_reg_reg(vm: &mut VM) -> (r: Result<(), Fault>)
    requires
        old(vm).wf(),
    ensures
        final(vm).wf(),
        executes(old(vm)@, final(vm)@, r, Opcode::MovRegReg),
{
    match vm.fault_for(Opcode::MovRegReg) {
        Some(fault) => {
            return Err(fault);
        },
        None => {},
    }
    let dst: u8 = vm.fetch_reg();
    let src: u8 = vm.fetch_reg();
    vm.regs[dst as usize] = vm.regs[src as usize];
    assert(vm@ =~= effect(old(vm)@, Opcode::MovRegReg));
    Ok(())
}

/// Copies the heap cell at the first address operand into the cell at the
/// second.
pub fn mov_heap_heap(vm: &mut VM) -> (r: Result<(), Fault>)
    requires
        old(vm).wf(),
    ensures
        final(vm).wf(),
        executes(old(vm)@, final(vm)@, r, Opcode::MovHeapHeap),
{
    match vm.fault_for(Opcode::MovHeapHeap) {
        Some(fault) => {
            return Err(fault);
        },
        None => {},
    }
    let src: u32 = vm.fetch_lit();
    let dst: u32 = vm.fetch_lit();
    let value: u32 = vm.heap.read(src as usize);
    vm.heap.write(dst as usize, value);
    assert(vm@ =~= effect(old(vm)@, Opcode::MovHeapHeap));
    Ok(())
}

/// Pushes the heap cell at the address operand.
pub fn push_heap(vm: &mut VM) -> (r: Result<(), Fault>)
    requires
        old(vm).wf(),
    ensures
        final(vm).wf(),
        executes(old(vm)@, final(vm)@, r, Opcode::PushHeap),
{
    match vm.fault_for(Opcode::PushHeap) {
        Some(fault) => {
            return Err(fault);
        },
        None => {},
    }
    let addr: u32 = vm.fetch_lit();
    let value: u32 = vm.heap.read(addr as usize);
    vm.stack.push(value);
    assert(vm@ =~= effect(old(vm)@, Opcode::PushHeap));
    Ok(())
}

} // verus!
