//! The syscall instruction and the two data transfers that a host performs
//! for it.
//!
//! The machine does no input or output of its own. A syscall only names the
//! service that the program asks for; the host performs it, fetching the
//! bytes to write with `output_bytes` and handing over the bytes it read
//! with `store_input`, and then resumes the run.

use vstd::prelude::*;
use crate::heap::{cells_as_bytes, stored_bytes};
use crate::isa::{fault_of, request, Opcode};
use crate::machine::{Fault, HostCall, Machine, Register};
use crate::vm::VM;

verus! {

/// Names the service that the program asks for: register A selects it,
/// registers B and C are its arguments. The state stays as it is.
pub fn syscall(vm: &VM) -> (r: Result<Option<HostCall>, Fault>)
    requires
        vm.wf(),
    ensures
        match fault_of(vm@, Opcode::Syscall) {
            Some(fault) => r == Err::<Option<HostCall>, Fault>(fault),
            None => r == Ok::<Option<HostCall>, Fault>(request(vm@)),
        },
{
    match vm.fault_for(Opcode::Syscall) {
        Some(fault) => {
            return Err(fault);
        },
        None => {},
    }
    let code: usize = vm.regs[Register::A.index()];
    let ptr: usize = vm.regs[Register::B.index()];
    let len: usize = vm.regs[Register::C.index()];
    if code == 0 {
        Ok(Some(HostCall::Write { addr: ptr, len }))
    } else if code == 1 {
        Ok(Some(HostCall::Read { addr: ptr, len }))
    } else if code == 2 {
        Ok(Some(HostCall::ClearScreen))
    } else if code == 3 {
        Ok(Some(HostCall::PrintInt { value: ptr }))
    } else {
        Ok(None)
    }
}

/// The bytes that a `Write` of `len` cells from `addr` on sends to standard
/// output: every cell as four bytes, most significant first. `None` when
/// the machine word cannot count that many bytes.
pub fn output_bytes(vm: &VM, addr: usize, len: usize) -> (bytes: Option<Vec<u8>>)
    ensures
        4 * len > usize::MAX ==> bytes is None,
        4 * len <= usize::MAX ==> bytes is Some && bytes->0@ == cells_as_bytes(
            vm@.heap,
            addr as int,
            len as nat,
        ),
{
    if len > usize::MAX / 4 {
        None
    } else {
        Some(vm.heap.read_bytes(addr, len))
    }
}

/// Stores the bytes that a `Read` brought in: `input` goes to the heap
/// cells from `addr` on, one byte per cell. Faults, and stores nothing,
/// when the last of these cells lies beyond what the heap can address.
pub fn store_input(vm: &mut VM, addr: usize, input: &[u8]) -> (r: Result<(), Fault>)
    ensures
        old(vm).wf() ==> final(vm).wf(),
        addr + input@.len() > usize::MAX ==> r == Err::<(), Fault>(Fault::OutOfMemory) && final(vm)@ == old(vm)@,
        addr + input@.len() <= usize::MAX ==> r == Ok::<(), Fault>(()) && final(vm)@ == (Machine {
            heap: stored_bytes(old(vm)@.heap, addr as nat, input@),
            ..old(vm)@
        }),
{
    if input.len() > usize::MAX - addr {
        Err(Fault::OutOfMemory)
    } else {
        vm.heap.write_bytes(addr, input);
        Ok(())
    }
}

} // verus!
