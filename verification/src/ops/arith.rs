//! Arithmetic on two registers or on the two topmost stack values.
//!
//! Sums, differences and products wrap around; when they do, the overflow
//! flag is raised. No instruction lowers it again.

use vstd::prelude::*;
use crate::flags::Flag;
use crate::isa::{effect, executes, Opcode};
use crate::machine::Fault;
use crate::vm::VM;

verus! {

/// A product of two natural numbers exceeds `max` exactly when the second
/// factor is not zero and the first exceeds `max` divided by the second.
pub proof fn lemma_product_exceeds(x: int, y: int, max: int)
    requires
        0 <= x,
        0 <= y,
        0 <= max,
    ensures
        x * y > max <==> y != 0 && x > max / y,
{
    if y == 0 {
        assert(x * y == 0) by (nonlinear_arith)
            requires
                y == 0,
        ;
    } else {
        vstd::arithmetic::div_mod::lemma_fundamental_div_mod(max, y);
        vstd::arithmetic::div_mod::lemma_mod_bound(max, y);
        let q = max / y;
        if x > q {
            assert(x * y >= (q + 1) * y) by (nonlinear_arith)
                requires
                    x >= q + 1,
                    y > 0,
            ;
            assert((q + 1) * y == y * q + y) by (nonlinear_arith);
        } else {
            assert(x * y <= q * y) by (nonlinear_arith)
                requires
                    0 <= x <= q,
                    y > 0,
            ;
            assert(q * y == y * q) by (nonlinear_arith);
        }
    }
}

/// Adds the second register operand to the first.
pub fn math_add_reg(vm: &mut VM) -> (r: Result<(), Fault>)
    requires
        old(vm).wf(),
    ensures
        final(vm).wf(),
        executes(old(vm)@, final(vm)@, r, Opcode::MathAddReg),
{
    match vm.fault_for(Opcode::MathAddReg) {
        Some(fault) => {
            return Err(fault);
        },
        None => {},
    }
    let a: usize = vm.fetch_reg() as usize;
    let b: usize = vm.fetch_reg() as usize;
    let x: usize = vm.regs[a];
    let y: usize = vm.regs[b];
    if x > usize::MAX - y {
        vm.flags.set(Flag::Overflow, true);
    }
    vm.regs[a] = x.wrapping_add(y);
    assert(vm@ =~= effect(old(vm)@, Opcode::MathAddReg));
    Ok(())
}

/// Replaces the two topmost stack values by their sum.
pub fn math_add_stack(vm: &mut VM) -> (r: Result<(), Fault>)
    requires
        old(vm).wf(),
    ensures
        final(vm).wf(),
        executes(old(vm)@, final(vm)@, r, Opcode::MathAddStack),
{
    match vm.fault_for(Opcode::MathAddStack) {
        Some(fault) => {
            return Err(fault);
        },
        None => {},
    }
    proof {
        vm.stack.lemma_bounds();
    }
    let first: Option<u32> = vm.stack.pop();
    let second: Option<u32> = vm.stack.pop();
    match (first, second) {
        (Some(a), Some(b)) => {
            if a > u32::MAX - b {
                vm.flags.set(Flag::Overflow, true);
            }
            vm.stack.push(a.wrapping_add(b));
            assert(vm@ =~= effect(old(vm)@, Opcode::MathAddStack));
            Ok(())
        },
        _ => Err(Fault::StackUnderflow),
    }
}

/// Subtracts the second register operand from the first.
pub fn math_sub_reg(vm: &mut VM) -> (r: Result<(), Fault>)
    requires
        old(vm).wf(),
    ensures
        final(vm).wf(),
        executes(old(vm)@, final(vm)@, r, Opcode::MathSubReg),
{
    match vm.fault_for(Opcode::MathSubReg) {
        Some(fault) => {
            return Err(fault);
        },
        None => {},
    }
    let a: usize = vm.fetch_reg() as usize;
    let b: usize = vm.fetch_reg() as usize;
    let x: usize = vm.regs[a];
    let y: usize = vm.regs[b];
    if x < y {
        vm.flags.set(Flag::Overflow, true);
    }
    vm.regs[a] = x.wrapping_sub(y);
    assert(vm@ =~= effect(old(vm)@, Opcode::MathSubReg));
    Ok(())
}

/// Replaces the two topmost stack values by the top less the value under
/// it.
pub fn math_sub_stack(vm: &mut VM) -> (r: Result<(), Fault>)
    requires
        old(vm).wf(),
    ensures
        final(vm).wf(),
        executes(old(vm)@, final(vm)@, r, Opcode::MathSubStack),
{
    match vm.fault_for(Opcode::MathSubStack) {
        Some(fault) => {
            return Err(fault);
        },
        None => {},
    }
    proof {
        vm.stack.lemma_bounds();
    }
    let first: Option<u32> = vm.stack.pop();
    let second: Option<u32> = vm.stack.pop();
    match (first, second) {
        (Some(a), Some(b)) => {
            if a < b {
                vm.flags.set(Flag::Overflow, true);
            }
            vm.stack.push(a.wrapping_sub(b));
            assert(vm@ =~= effect(old(vm)@, Opcode::MathSubStack));
            Ok(())
        },
        _ => Err(Fault::StackUnderflow),
    }
}

/// Multiplies the first register operand by the second.
pub fn math_mul_reg(vm: &mut VM) -> (r: Result<(), Fault>)
    requires
        old(vm).wf(),
    ensures
        final(vm).wf(),
        executes(old(vm)@, final(vm)@, r, Opcode::MathMulReg),
{
    match vm.fault_for(Opcode::MathMulReg) {
        Some(fault) => {
            return Err(fault);
        },
        None => {},
    }
    let a: usize = vm.fetch_reg() as usize;
    let b: usize = vm.fetch_reg() as usize;
    let x: usize = vm.regs[a];
    let y: usize = vm.regs[b];
    proof {
        lemma_product_exceeds(x as int, y as int, usize::MAX as int);
    }
    if y != 0 && x > usize::MAX / y {
        vm.flags.set(Flag::Overflow, true);
    }
    vm.regs[a] = x.wrapping_mul(y);
    assert(vm@ =~= effect(old(vm)@, Opcode::MathMulReg));
    Ok(())
}

/// Replaces the two topmost stack values by their product.
pub fn math_mul_stack(vm: &mut VM) -> (r: Result<(), Fault>)
    requires
        old(vm).wf(),
    ensures
        final(vm).wf(),
        executes(old(vm)@, final(vm)@, r, Opcode::MathMulStack),
{
    match vm.fault_for(Opcode::MathMulStack) {
        Some(fault) => {
            return Err(fault);
        },
        None => {},
    }
    proof {
        vm.stack.lemma_bounds();
    }
    let first: Option<u32> = vm.stack.pop();
    let second: Option<u32> = vm.stack.pop();
    match (first, second) {
        (Some(a), Some(b)) => {
            proof {
                lemma_product_exceeds(a as int, b as int, u32::MAX as int);
            }
            if b != 0 && a > u32::MAX / b {
                vm.flags.set(Flag::Overflow, true);
            }
            vm.stack.push(a.wrapping_mul(b));
            assert(vm@ =~= effect(old(vm)@, Opcode::MathMulStack));
            Ok(())
        },
        _ => Err(Fault::StackUnderflow),
    }
}

/// Divides the first register operand by the second. No flag changes.
pub fn math_div_reg(vm: &mut VM) -> (r: Result<(), Fault>)
    requires
        old(vm).wf(),
    ensures
        final(vm).wf(),
        executes(old(vm)@, final(vm)@, r, Opcode::MathDivReg),
{
    match vm.fault_for(Opcode::MathDivReg) {
        Some(fault) => {
            return Err(fault);
        },
        None => {},
    }
    let a: usize = vm.fetch_reg() as usize;
    let b: usize = vm.fetch_reg() as usize;
    let x: usize = vm.regs[a];
    let y: usize = vm.regs[b];
    vm.regs[a] = x / y;
    assert(vm@ =~= effect(old(vm)@, Opcode::MathDivReg));
    Ok(())
}

/// Replaces the two topmost stack values by the top divided by the value
/// under it. No flag changes.
pub fn math_div_stack(vm: &mut VM) -> (r: Result<(), Fault>)
    requires
        old(vm).wf(),
    ensures
        final(vm).wf(),
        executes(old(vm)@, final(vm)@, r, Opcode::MathDivStack),
{
    match vm.fault_for(Opcode::MathDivStack) {
        Some(fault) => {
            return Err(fault);
        },
        None => {},
    }
    proof {
        vm.stack.lemma_bounds();
    }
    let first: Option<u32> = vm.stack.pop();
    let second: Option<u32> = vm.stack.pop();
    match (first, second) {
        (Some(a), Some(b)) => {
            vm.stack.push(a / b);
            assert(vm@ =~= effect(old(vm)@, Opcode::MathDivStack));
            Ok(())
        },
        _ => Err(Fault::StackUnderflow),
    }
}

} // verus!
