use rsvm::isa::Opcode;
use rsvm::ops::arith::{
    math_add_reg, math_add_stack, math_div_reg, math_div_stack, math_mul_reg, math_mul_stack,
    math_sub_reg, math_sub_stack,
};
use rsvm::ops::bitwise::{
    math_and_reg, math_and_stack, math_not_reg, math_not_stack, math_or_reg, math_or_stack,
    math_xor_reg, math_xor_stack,
};
use rsvm::ops::compare::{compare_reg_lit, compare_reg_reg, compare_stack_lit};
use rsvm::ops::control::{
    exit, jump_absolute, jump_equal, jump_greater, jump_not_equal, jump_overflow, jump_smaller,
    nop,
};
use rsvm::ops::data::{
    mov_heap_heap, mov_heap_reg, mov_lit_heap, mov_lit_reg, mov_reg_heap, mov_reg_reg, pop_heap,
    pop_reg, push_heap, push_lit, push_reg, stack_dupe,
};
use rsvm::{Fault, Flag, FlagSet, VM};

/// A machine whose program is `code` without a header, the counter on its
/// first byte.
fn machine(code: &[u8]) -> VM {
    let mut vm = VM::new();
    vm.load_program(code.to_vec());
    vm
}

fn stack_of(vm: &mut VM) -> Vec<u32> {
    let mut values = Vec::new();
    while let Some(v) = vm.stack.pop() {
        values.push(v);
    }
    values.reverse();
    for v in &values {
        vm.stack.push(*v);
    }
    values
}

#[test]
fn opcode_bytes_select_their_instructions() {
    assert_eq!(Opcode::decode(0x00), Opcode::Exit);
    assert_eq!(Opcode::decode(0x01), Opcode::PushLit);
    assert_eq!(Opcode::decode(0x02), Opcode::PushReg);
    assert_eq!(Opcode::decode(0x03), Opcode::PopReg);
    assert_eq!(Opcode::decode(0x04), Opcode::PopHeap);
    assert_eq!(Opcode::decode(0x05), Opcode::StackDupe);
    assert_eq!(Opcode::decode(0x06), Opcode::MovLitReg);
    assert_eq!(Opcode::decode(0x07), Opcode::MovLitHeap);
    assert_eq!(Opcode::decode(0x08), Opcode::MovHeapReg);
    assert_eq!(Opcode::decode(0x09), Opcode::MovRegHeap);
    assert_eq!(Opcode::decode(0x0a), Opcode::MovRegReg);
    assert_eq!(Opcode::decode(0x0b), Opcode::MovHeapHeap);
    assert_eq!(Opcode::decode(0x0c), Opcode::PushHeap);
    assert_eq!(Opcode::decode(0x10), Opcode::MathAddReg);
    assert_eq!(Opcode::decode(0x11), Opcode::MathAddStack);
    assert_eq!(Opcode::decode(0x12), Opcode::MathSubReg);
    assert_eq!(Opcode::decode(0x13), Opcode::MathSubStack);
    assert_eq!(Opcode::decode(0x14), Opcode::MathMulReg);
    assert_eq!(Opcode::decode(0x15), Opcode::MathMulStack);
    assert_eq!(Opcode::decode(0x16), Opcode::MathDivReg);
    assert_eq!(Opcode::decode(0x17), Opcode::MathDivStack);
    assert_eq!(Opcode::decode(0x18), Opcode::MathNotReg);
    assert_eq!(Opcode::decode(0x19), Opcode::MathNotStack);
    assert_eq!(Opcode::decode(0x1a), Opcode::MathAndReg);
    assert_eq!(Opcode::decode(0x1b), Opcode::MathAndStack);
    assert_eq!(Opcode::decode(0x1c), Opcode::MathOrReg);
    assert_eq!(Opcode::decode(0x1d), Opcode::MathOrStack);
    assert_eq!(Opcode::decode(0x1e), Opcode::MathXorReg);
    assert_eq!(Opcode::decode(0x1f), Opcode::MathXorStack);
    assert_eq!(Opcode::decode(0x20), Opcode::JumpAbsolute);
    assert_eq!(Opcode::decode(0x30), Opcode::CompareRegReg);
    assert_eq!(Opcode::decode(0x31), Opcode::CompareRegLit);
    assert_eq!(Opcode::decode(0x32), Opcode::CompareStackLit);
    assert_eq!(Opcode::decode(0x33), Opcode::JumpEqual);
    assert_eq!(Opcode::decode(0x34), Opcode::JumpNotEqual);
    assert_eq!(Opcode::decode(0x35), Opcode::JumpGreater);
    assert_eq!(Opcode::decode(0x36), Opcode::JumpSmaller);
    assert_eq!(Opcode::decode(0x37), Opcode::JumpOverflow);
    assert_eq!(Opcode::decode(0xff), Opcode::Syscall);
}

#[test]
fn unassigned_opcode_bytes_select_nop() {
    for byte in [0x0du8, 0x0e, 0x0f, 0x21, 0x2f, 0x38, 0x40, 0x80, 0xfe] {
        assert_eq!(Opcode::decode(byte), Opcode::Nop);
    }
    let mut count = 0;
    for byte in 0..=255u8 {
        if Opcode::decode(byte) == Opcode::Nop {
            count += 1;
        }
    }
    assert_eq!(count, 256 - 39);
}

#[test]
fn operand_counts_follow_the_encoding() {
    assert_eq!(Opcode::Exit.operand_count(), 0);
    assert_eq!(Opcode::PushLit.operand_count(), 4);
    assert_eq!(Opcode::PushReg.operand_count(), 1);
    assert_eq!(Opcode::MovLitReg.operand_count(), 5);
    assert_eq!(Opcode::MovLitHeap.operand_count(), 8);
    assert_eq!(Opcode::MovRegReg.operand_count(), 2);
    assert_eq!(Opcode::MathAddReg.operand_count(), 2);
    assert_eq!(Opcode::MathAddStack.operand_count(), 0);
    assert_eq!(Opcode::JumpEqual.operand_count(), 4);
    assert_eq!(Opcode::Syscall.operand_count(), 0);
    assert_eq!(Opcode::MathAddStack.stack_demand(), 2);
    assert_eq!(Opcode::MathNotStack.stack_demand(), 1);
    assert_eq!(Opcode::PushLit.stack_demand(), 0);
}

#[test]
fn fetch_reg_advances_and_reads() {
    let mut vm = machine(&[0x02, 0x03, 0x07]);
    assert_eq!(vm.fetch_reg(), 0x03);
    assert_eq!(vm.prgrm_cntr, 1);
    assert_eq!(vm.fetch_reg(), 0x07);
    assert_eq!(vm.prgrm_cntr, 2);
}

#[test]
fn fetch_reg_respects_header_size() {
    let mut vm = machine(&[0x1d, 0x1d, 0x1d, 0x1d, 0x02, 0x03]);
    assert_eq!(vm.parse_header(), Ok(()));
    assert!(vm.holds(1));
    assert!(!vm.holds(2));
    assert_eq!(vm.operand(0), 0x02);
    assert_eq!(vm.fetch_reg(), 0x03);
    assert_eq!(vm.prgrm_cntr, 1);
}

#[test]
fn fetch_lit_is_big_endian() {
    let mut vm = machine(&[0x01, 0x12, 0x34, 0x56, 0x78]);
    assert_eq!(vm.literal_operand(1), 0x1234_5678);
    assert_eq!(vm.prgrm_cntr, 0);
    assert_eq!(vm.fetch_lit(), 0x1234_5678);
    assert_eq!(vm.prgrm_cntr, 4);
}

#[test]
fn fetch_lit_high_byte_set() {
    let mut vm = machine(&[0x01, 0xff, 0x00, 0x00, 0x01]);
    assert_eq!(vm.fetch_lit(), 0xff00_0001);
}

#[test]
fn exit_sets_stop() {
    let mut vm = machine(&[0x00]);
    assert_eq!(exit(&mut vm), Ok(()));
    assert!(vm.flags.get(Flag::Stop));
    assert_eq!(vm.prgrm_cntr, 0);
}

#[test]
fn nop_changes_nothing() {
    let mut vm = machine(&[0x0d]);
    assert_eq!(nop(&mut vm), Ok(()));
    assert_eq!(vm.prgrm_cntr, 0);
    assert_eq!(vm.flags, FlagSet::new());
    assert_eq!(vm.regs, [0, 0, 0, 0]);
}

#[test]
fn push_lit_pushes_the_literal() {
    let mut vm = machine(&[0x01, 0, 0, 1, 2]);
    assert_eq!(push_lit(&mut vm), Ok(()));
    assert_eq!(stack_of(&mut vm), vec![0x102]);
    assert_eq!(vm.prgrm_cntr, 4);
}

#[test]
fn push_reg_pushes_low_32_bits() {
    let mut vm = machine(&[0x02, 2]);
    vm.regs[2] = 77;
    assert_eq!(push_reg(&mut vm), Ok(()));
    assert_eq!(stack_of(&mut vm), vec![77]);
    assert_eq!(vm.prgrm_cntr, 1);

    let mut vm = machine(&[0x02, 0]);
    vm.regs[0] = usize::MAX;
    assert_eq!(push_reg(&mut vm), Ok(()));
    assert_eq!(stack_of(&mut vm), vec![u32::MAX]);
}

#[test]
fn pop_reg_moves_top_to_register() {
    let mut vm = machine(&[0x03, 3]);
    vm.stack.push(5);
    vm.stack.push(9);
    assert_eq!(pop_reg(&mut vm), Ok(()));
    assert_eq!(vm.regs, [0, 0, 0, 9]);
    assert_eq!(stack_of(&mut vm), vec![5]);
    assert_eq!(vm.prgrm_cntr, 1);
}

#[test]
fn pop_reg_on_empty_stack_underflows() {
    let mut vm = machine(&[0x03, 1]);
    assert_eq!(pop_reg(&mut vm), Err(Fault::StackUnderflow));
    assert_eq!(vm.prgrm_cntr, 0);
    assert_eq!(vm.regs, [0, 0, 0, 0]);
}

#[test]
fn pop_heap_moves_top_to_heap() {
    let mut vm = machine(&[0x04, 0, 0, 1, 0x2c]);
    vm.stack.push(0xabcd);
    assert_eq!(pop_heap(&mut vm), Ok(()));
    assert_eq!(vm.heap.read(300), 0xabcd);
    assert_eq!(vm.heap.capacity(), 301);
    assert!(vm.stack.is_empty());
    assert_eq!(vm.prgrm_cntr, 4);
}

#[test]
fn pop_heap_on_empty_stack_underflows() {
    let mut vm = machine(&[0x04, 0, 0, 0, 1]);
    assert_eq!(pop_heap(&mut vm), Err(Fault::StackUnderflow));
    assert_eq!(vm.prgrm_cntr, 0);
}

#[test]
fn stack_dupe_copies_the_true_top() {
    let mut vm = machine(&[0x05]);
    vm.stack.push(1);
    vm.stack.push(2);
    assert_eq!(stack_dupe(&mut vm), Ok(()));
    assert_eq!(stack_of(&mut vm), vec![1, 2, 2]);
    assert_eq!(vm.prgrm_cntr, 0);
}

#[test]
fn stack_dupe_on_empty_stack_underflows() {
    let mut vm = machine(&[0x05]);
    assert_eq!(stack_dupe(&mut vm), Err(Fault::StackUnderflow));
    assert!(vm.stack.is_empty());
}

#[test]
fn mov_lit_reg_sets_register() {
    let mut vm = machine(&[0x06, 1, 0xde, 0xad, 0xbe, 0xef]);
    assert_eq!(mov_lit_reg(&mut vm), Ok(()));
    assert_eq!(vm.regs, [0, 0xdead_beef, 0, 0]);
    assert_eq!(vm.prgrm_cntr, 5);
    assert_eq!(vm.flags, FlagSet::new());
}

#[test]
fn mov_lit_heap_sets_cell() {
    let mut vm = machine(&[0x07, 0, 0, 0, 10, 0, 0, 0, 99]);
    assert_eq!(mov_lit_heap(&mut vm), Ok(()));
    assert_eq!(vm.heap.read(10), 99);
    assert_eq!(vm.prgrm_cntr, 8);
}

#[test]
fn mov_lit_heap_stores_zero() {
    let mut vm = machine(&[0x07, 0, 0, 0, 10, 0, 0, 0, 0]);
    vm.heap.write(10, 5);
    assert_eq!(mov_lit_heap(&mut vm), Ok(()));
    assert_eq!(vm.heap.read(10), 0);
}

#[test]
fn mov_heap_reg_loads_cell() {
    let mut vm = machine(&[0x08, 2, 0, 0, 0, 10]);
    vm.heap.write(10, 1234);
    assert_eq!(mov_heap_reg(&mut vm), Ok(()));
    assert_eq!(vm.regs, [0, 0, 1234, 0]);
    assert_eq!(vm.prgrm_cntr, 5);
}

#[test]
fn mov_heap_reg_out_of_range_reads_zero() {
    let mut vm = machine(&[0x08, 2, 0, 0xff, 0xff, 0xff]);
    vm.regs[2] = 7;
    assert_eq!(mov_heap_reg(&mut vm), Ok(()));
    assert_eq!(vm.regs, [0, 0, 0, 0]);
    assert_eq!(vm.heap.capacity(), 256);
}

#[test]
fn mov_reg_heap_stores_register() {
    let mut vm = machine(&[0x09, 0, 0, 0, 20, 1]);
    vm.regs[1] = 4321;
    assert_eq!(mov_reg_heap(&mut vm), Ok(()));
    assert_eq!(vm.heap.read(20), 4321);
    assert_eq!(vm.prgrm_cntr, 5);
}

#[test]
fn mov_reg_reg_copies_source_to_destination() {
    let mut vm = machine(&[0x0a, 0, 3]);
    vm.regs[3] = 8;
    vm.regs[0] = 1;
    assert_eq!(mov_reg_reg(&mut vm), Ok(()));
    assert_eq!(vm.regs, [8, 0, 0, 8]);
    assert_eq!(vm.prgrm_cntr, 2);
}

#[test]
fn mov_heap_heap_copies_first_address_to_second() {
    let mut vm = machine(&[0x0b, 0, 0, 0, 1, 0, 0, 0, 2]);
    vm.heap.write(1, 55);
    vm.heap.write(2, 66);
    assert_eq!(mov_heap_heap(&mut vm), Ok(()));
    assert_eq!(vm.heap.read(1), 55);
    assert_eq!(vm.heap.read(2), 55);
    assert_eq!(vm.prgrm_cntr, 8);
}

#[test]
fn push_heap_pushes_cell() {
    let mut vm = machine(&[0x0c, 0, 0, 0, 1]);
    vm.heap.write(1, 55);
    assert_eq!(push_heap(&mut vm), Ok(()));
    assert_eq!(stack_of(&mut vm), vec![55]);
    assert_eq!(vm.prgrm_cntr, 4);
}

#[test]
fn add_reg_adds_second_to_first() {
    let mut vm = machine(&[0x10, 0, 1]);
    vm.regs[0] = 3;
    vm.regs[1] = 4;
    assert_eq!(math_add_reg(&mut vm), Ok(()));
    assert_eq!(vm.regs, [7, 4, 0, 0]);
    assert!(!vm.flags.get(Flag::Overflow));
    assert_eq!(vm.prgrm_cntr, 2);
}

#[test]
fn add_reg_overflow_wraps_and_sets_flag() {
    let mut vm = machine(&[0x10, 0, 1]);
    vm.regs[0] = usize::MAX;
    vm.regs[1] = 3;
    assert_eq!(math_add_reg(&mut vm), Ok(()));
    assert_eq!(vm.regs, [2, 3, 0, 0]);
    assert!(vm.flags.get(Flag::Overflow));
}

#[test]
fn add_reg_at_the_maximum_does_not_overflow() {
    let mut vm = machine(&[0x10, 0, 1]);
    vm.regs[0] = usize::MAX - 3;
    vm.regs[1] = 3;
    assert_eq!(math_add_reg(&mut vm), Ok(()));
    assert_eq!(vm.regs[0], usize::MAX);
    assert!(!vm.flags.get(Flag::Overflow));
}

#[test]
fn add_reg_same_register_doubles() {
    let mut vm = machine(&[0x10, 2, 2]);
    vm.regs[2] = 21;
    assert_eq!(math_add_reg(&mut vm), Ok(()));
    assert_eq!(vm.regs, [0, 0, 42, 0]);
}

#[test]
fn sub_reg_subtracts_second_from_first() {
    let mut vm = machine(&[0x12, 0, 1]);
    vm.regs[0] = 10;
    vm.regs[1] = 4;
    assert_eq!(math_sub_reg(&mut vm), Ok(()));
    assert_eq!(vm.regs, [6, 4, 0, 0]);
    assert!(!vm.flags.get(Flag::Overflow));
}

#[test]
fn sub_reg_smaller_minus_greater_sets_overflow() {
    let mut vm = machine(&[0x12, 0, 1]);
    vm.regs[0] = 4;
    vm.regs[1] = 10;
    assert_eq!(math_sub_reg(&mut vm), Ok(()));
    assert_eq!(vm.regs[0], usize::MAX - 5);
    assert!(vm.flags.get(Flag::Overflow));
}

#[test]
fn mul_reg_multiplies() {
    let mut vm = machine(&[0x14, 0, 1]);
    vm.regs[0] = 6;
    vm.regs[1] = 7;
    assert_eq!(math_mul_reg(&mut vm), Ok(()));
    assert_eq!(vm.regs, [42, 7, 0, 0]);
    assert!(!vm.flags.get(Flag::Overflow));
}

#[test]
fn mul_reg_overflow_wraps_and_sets_flag() {
    let mut vm = machine(&[0x14, 0, 1]);
    vm.regs[0] = usize::MAX;
    vm.regs[1] = 2;
    assert_eq!(math_mul_reg(&mut vm), Ok(()));
    assert_eq!(vm.regs[0], usize::MAX - 1);
    assert!(vm.flags.get(Flag::Overflow));
}

#[test]
fn mul_reg_by_zero_is_zero_without_fault() {
    let mut vm = machine(&[0x14, 0, 1]);
    vm.regs[0] = usize::MAX;
    vm.regs[1] = 0;
    assert_eq!(math_mul_reg(&mut vm), Ok(()));
    assert_eq!(vm.regs[0], 0);
    assert!(!vm.flags.get(Flag::Overflow));
}

#[test]
fn div_reg_divides() {
    let mut vm = machine(&[0x16, 0, 1]);
    vm.regs[0] = 17;
    vm.regs[1] = 5;
    vm.flags.set(Flag::Overflow, true);
    assert_eq!(math_div_reg(&mut vm), Ok(()));
    assert_eq!(vm.regs, [3, 5, 0, 0]);
    assert!(vm.flags.get(Flag::Overflow));
}

#[test]
fn div_reg_by_zero_faults() {
    let mut vm = machine(&[0x16, 0, 1]);
    vm.regs[0] = 17;
    assert_eq!(math_div_reg(&mut vm), Err(Fault::DivideByZero));
    assert_eq!(vm.regs, [17, 0, 0, 0]);
    assert_eq!(vm.prgrm_cntr, 0);
}

#[test]
fn add_stack_replaces_two_by_sum() {
    let mut vm = machine(&[0x11]);
    vm.stack.push(100);
    vm.stack.push(3);
    vm.stack.push(4);
    assert_eq!(math_add_stack(&mut vm), Ok(()));
    assert_eq!(stack_of(&mut vm), vec![100, 7]);
    assert!(!vm.flags.get(Flag::Overflow));
    assert_eq!(vm.prgrm_cntr, 0);
}

#[test]
fn add_stack_overflow_wraps_and_sets_flag() {
    let mut vm = machine(&[0x11]);
    vm.stack.push(u32::MAX);
    vm.stack.push(2);
    assert_eq!(math_add_stack(&mut vm), Ok(()));
    assert_eq!(stack_of(&mut vm), vec![1]);
    assert!(vm.flags.get(Flag::Overflow));
}

#[test]
fn add_stack_with_one_value_underflows_and_keeps_it() {
    let mut vm = machine(&[0x11]);
    vm.stack.push(2);
    assert_eq!(math_add_stack(&mut vm), Err(Fault::StackUnderflow));
    assert_eq!(stack_of(&mut vm), vec![2]);
}

#[test]
fn sub_stack_is_top_minus_second() {
    let mut vm = machine(&[0x13]);
    vm.stack.push(3);
    vm.stack.push(10);
    assert_eq!(math_sub_stack(&mut vm), Ok(()));
    assert_eq!(stack_of(&mut vm), vec![7]);
    assert!(!vm.flags.get(Flag::Overflow));
}

#[test]
fn sub_stack_underflow_wraps_and_sets_flag() {
    let mut vm = machine(&[0x13]);
    vm.stack.push(10);
    vm.stack.push(3);
    assert_eq!(math_sub_stack(&mut vm), Ok(()));
    assert_eq!(stack_of(&mut vm), vec![u32::MAX - 6]);
    assert!(vm.flags.get(Flag::Overflow));
}

#[test]
fn mul_stack_multiplies() {
    let mut vm = machine(&[0x15]);
    vm.stack.push(6);
    vm.stack.push(7);
    assert_eq!(math_mul_stack(&mut vm), Ok(()));
    assert_eq!(stack_of(&mut vm), vec![42]);
    assert!(!vm.flags.get(Flag::Overflow));
}

#[test]
fn mul_stack_overflow_wraps_and_sets_flag() {
    let mut vm = machine(&[0x15]);
    vm.stack.push(0x1_0000);
    vm.stack.push(0x1_0001);
    assert_eq!(math_mul_stack(&mut vm), Ok(()));
    assert_eq!(stack_of(&mut vm), vec![0x1_0000]);
    assert!(vm.flags.get(Flag::Overflow));
}

#[test]
fn mul_stack_by_zero_is_zero_without_fault() {
    let mut vm = machine(&[0x15]);
    vm.stack.push(0);
    vm.stack.push(9);
    assert_eq!(math_mul_stack(&mut vm), Ok(()));
    assert_eq!(stack_of(&mut vm), vec![0]);
    assert!(!vm.flags.get(Flag::Overflow));
}

#[test]
fn div_stack_is_top_divided_by_second() {
    let mut vm = machine(&[0x17]);
    vm.stack.push(5);
    vm.stack.push(17);
    assert_eq!(math_div_stack(&mut vm), Ok(()));
    assert_eq!(stack_of(&mut vm), vec![3]);
}

#[test]
fn div_stack_by_zero_faults_and_keeps_stack() {
    let mut vm = machine(&[0x17]);
    vm.stack.push(0);
    vm.stack.push(17);
    assert_eq!(math_div_stack(&mut vm), Err(Fault::DivideByZero));
    assert_eq!(stack_of(&mut vm), vec![0, 17]);
}

#[test]
fn overflow_flag_is_not_lowered_by_later_arithmetic() {
    let mut vm = machine(&[0x11]);
    vm.flags.set(Flag::Overflow, true);
    vm.stack.push(1);
    vm.stack.push(2);
    assert_eq!(math_add_stack(&mut vm), Ok(()));
    assert!(vm.flags.get(Flag::Overflow));
}

#[test]
fn arithmetic_leaves_ordering_flags() {
    let mut vm = machine(&[0x10, 0, 1]);
    vm.compare_numbers(1, 2);
    vm.regs[0] = usize::MAX;
    vm.regs[1] = 1;
    assert_eq!(math_add_reg(&mut vm), Ok(()));
    assert!(vm.flags.get(Flag::Smaller));
    assert!(vm.flags.get(Flag::NotEqual));
    assert!(!vm.flags.get(Flag::Equal));
    assert!(!vm.flags.get(Flag::Greater));
    assert!(vm.flags.get(Flag::Overflow));
}

#[test]
fn not_reg_complements() {
    let mut vm = machine(&[0x18, 1]);
    vm.regs[1] = 0b1010;
    assert_eq!(math_not_reg(&mut vm), Ok(()));
    assert_eq!(vm.regs[1], !0b1010usize);
    assert_eq!(vm.prgrm_cntr, 1);
}

#[test]
fn not_stack_complements_top() {
    let mut vm = machine(&[0x19]);
    vm.stack.push(1);
    vm.stack.push(0x0f0f_0f0f);
    assert_eq!(math_not_stack(&mut vm), Ok(()));
    assert_eq!(stack_of(&mut vm), vec![1, 0xf0f0_f0f0]);
}

#[test]
fn not_stack_on_empty_stack_underflows() {
    let mut vm = machine(&[0x19]);
    assert_eq!(math_not_stack(&mut vm), Err(Fault::StackUnderflow));
}

#[test]
fn and_or_xor_on_registers() {
    let mut vm = machine(&[0x1a, 0, 1]);
    vm.regs[0] = 0b1100;
    vm.regs[1] = 0b1010;
    assert_eq!(math_and_reg(&mut vm), Ok(()));
    assert_eq!(vm.regs, [0b1000, 0b1010, 0, 0]);

    let mut vm = machine(&[0x1c, 0, 1]);
    vm.regs[0] = 0b1100;
    vm.regs[1] = 0b1010;
    assert_eq!(math_or_reg(&mut vm), Ok(()));
    assert_eq!(vm.regs, [0b1110, 0b1010, 0, 0]);

    let mut vm = machine(&[0x1e, 0, 1]);
    vm.regs[0] = 0b1100;
    vm.regs[1] = 0b1010;
    assert_eq!(math_xor_reg(&mut vm), Ok(()));
    assert_eq!(vm.regs, [0b0110, 0b1010, 0, 0]);
    assert_eq!(vm.prgrm_cntr, 2);
    assert_eq!(vm.flags, FlagSet::new());
}

#[test]
fn and_or_xor_on_stack() {
    let mut vm = machine(&[0x1b]);
    vm.stack.push(0b1100);
    vm.stack.push(0b1010);
    assert_eq!(math_and_stack(&mut vm), Ok(()));
    assert_eq!(stack_of(&mut vm), vec![0b1000]);

    let mut vm = machine(&[0x1d]);
    vm.stack.push(0b1100);
    vm.stack.push(0b1010);
    assert_eq!(math_or_stack(&mut vm), Ok(()));
    assert_eq!(stack_of(&mut vm), vec![0b1110]);

    let mut vm = machine(&[0x1f]);
    vm.stack.push(0b1100);
    vm.stack.push(0b1010);
    assert_eq!(math_xor_stack(&mut vm), Ok(()));
    assert_eq!(stack_of(&mut vm), vec![0b0110]);
}

#[test]
fn compare_numbers_sets_exactly_one_ordering() {
    for (a, b) in [(0u32, 0u32), (1, 2), (2, 1), (u32::MAX, 0), (0, u32::MAX), (7, 7)] {
        let mut vm = VM::new();
        vm.flags.set(Flag::Overflow, true);
        vm.compare_numbers(a, b);
        let equal = vm.flags.get(Flag::Equal);
        let greater = vm.flags.get(Flag::Greater);
        let smaller = vm.flags.get(Flag::Smaller);
        assert_eq!(equal, a == b);
        assert_eq!(greater, a > b);
        assert_eq!(smaller, a < b);
        assert_eq!([equal, greater, smaller].iter().filter(|f| **f).count(), 1);
        assert_eq!(vm.flags.get(Flag::NotEqual), !equal);
        assert!(vm.flags.get(Flag::Overflow));
        assert!(!vm.flags.get(Flag::Stop));
    }
}

#[test]
fn compare_overwrites_earlier_comparison() {
    let mut vm = VM::new();
    vm.compare_numbers(5, 1);
    vm.compare_numbers(1, 1);
    assert!(vm.flags.get(Flag::Equal));
    assert!(!vm.flags.get(Flag::Greater));
    assert!(!vm.flags.get(Flag::NotEqual));
}

#[test]
fn compare_reg_reg_compares_registers() {
    let mut vm = machine(&[0x30, 0, 1]);
    vm.regs[0] = 9;
    vm.regs[1] = 3;
    assert_eq!(compare_reg_reg(&mut vm), Ok(()));
    assert!(vm.flags.get(Flag::Greater));
    assert!(vm.flags.get(Flag::NotEqual));
    assert!(!vm.flags.get(Flag::Smaller));
    assert_eq!(vm.prgrm_cntr, 2);
    assert_eq!(vm.regs, [9, 3, 0, 0]);
}

#[test]
fn compare_reg_lit_compares_with_literal() {
    let mut vm = machine(&[0x31, 2, 0, 0, 0, 9]);
    vm.regs[2] = 9;
    assert_eq!(compare_reg_lit(&mut vm), Ok(()));
    assert!(vm.flags.get(Flag::Equal));
    assert!(!vm.flags.get(Flag::NotEqual));
    assert_eq!(vm.prgrm_cntr, 5);
}

#[test]
fn compare_stack_lit_keeps_the_top() {
    let mut vm = machine(&[0x32, 0, 0, 0, 9]);
    vm.stack.push(100);
    vm.stack.push(3);
    assert_eq!(compare_stack_lit(&mut vm), Ok(()));
    assert!(vm.flags.get(Flag::Smaller));
    assert_eq!(stack_of(&mut vm), vec![100, 3]);
    assert_eq!(vm.prgrm_cntr, 4);
}

#[test]
fn compare_stack_lit_on_empty_stack_underflows() {
    let mut vm = machine(&[0x32, 0, 0, 0, 9]);
    assert_eq!(compare_stack_lit(&mut vm), Err(Fault::StackUnderflow));
    assert_eq!(vm.flags, FlagSet::new());
}

#[test]
fn jump_absolute_leaves_counter_one_short() {
    let mut vm = machine(&[0x20, 0, 0, 0, 9]);
    assert_eq!(jump_absolute(&mut vm), Ok(()));
    assert_eq!(vm.prgrm_cntr, 8);
}

#[test]
fn jump_absolute_to_zero_wraps() {
    let mut vm = machine(&[0x20, 0, 0, 0, 0]);
    assert_eq!(jump_absolute(&mut vm), Ok(()));
    assert_eq!(vm.prgrm_cntr, usize::MAX);
    assert_eq!(vm.prgrm_cntr.wrapping_add(1), 0);
}

#[test]
fn conditional_jumps_follow_their_flag() {
    let handlers: [(fn(&mut VM) -> Result<(), Fault>, Flag); 5] = [
        (jump_equal, Flag::Equal),
        (jump_not_equal, Flag::NotEqual),
        (jump_greater, Flag::Greater),
        (jump_smaller, Flag::Smaller),
        (jump_overflow, Flag::Overflow),
    ];
    for (handler, flag) in handlers {
        let mut vm = machine(&[0x33, 0, 0, 1, 0]);
        assert_eq!(handler(&mut vm), Ok(()));
        assert_eq!(vm.prgrm_cntr, 4);

        let mut vm = machine(&[0x33, 0, 0, 1, 0]);
        vm.flags.set(flag, true);
        assert_eq!(handler(&mut vm), Ok(()));
        assert_eq!(vm.prgrm_cntr, 255);

        // every other flag set, this one clear: not taken
        let mut vm = machine(&[0x33, 0, 0, 1, 0]);
        for other in [Flag::Equal, Flag::NotEqual, Flag::Greater, Flag::Smaller, Flag::Overflow] {
            vm.flags.set(other, other != flag);
        }
        assert_eq!(handler(&mut vm), Ok(()));
        assert_eq!(vm.prgrm_cntr, 4);
    }
}

#[test]
fn truncated_operands_fault_without_change() {
    let mut vm = machine(&[0x06, 1, 0, 0, 0]);
    assert_eq!(mov_lit_reg(&mut vm), Err(Fault::ProgramCounterOutOfBounds));
    assert_eq!(vm.prgrm_cntr, 0);
    assert_eq!(vm.regs, [0, 0, 0, 0]);

    let mut vm = machine(&[0x01, 0, 0]);
    assert_eq!(push_lit(&mut vm), Err(Fault::ProgramCounterOutOfBounds));
    assert!(vm.stack.is_empty());

    let mut vm = machine(&[0x20]);
    assert_eq!(jump_absolute(&mut vm), Err(Fault::ProgramCounterOutOfBounds));
    assert_eq!(vm.prgrm_cntr, 0);
}

#[test]
fn invalid_register_faults_without_change() {
    let mut vm = machine(&[0x06, 4, 0, 0, 0, 1]);
    assert_eq!(mov_lit_reg(&mut vm), Err(Fault::InvalidRegister));
    assert_eq!(vm.prgrm_cntr, 0);

    let mut vm = machine(&[0x10, 0, 255]);
    assert_eq!(math_add_reg(&mut vm), Err(Fault::InvalidRegister));

    let mut vm = machine(&[0x09, 0, 0, 0, 1, 9]);
    assert_eq!(mov_reg_heap(&mut vm), Err(Fault::InvalidRegister));
    assert_eq!(vm.heap.read(1), 0);

    let mut vm = machine(&[0x03, 7]);
    vm.stack.push(1);
    assert_eq!(pop_reg(&mut vm), Err(Fault::InvalidRegister));
    assert_eq!(vm.stack.len(), 1);
}

#[test]
fn faults_are_ranked() {
    // operands missing and stack empty: the missing operands are reported
    let mut vm = machine(&[0x03]);
    assert_eq!(pop_reg(&mut vm), Err(Fault::ProgramCounterOutOfBounds));
    // register invalid and stack empty: the register is reported
    let mut vm = machine(&[0x03, 9]);
    assert_eq!(pop_reg(&mut vm), Err(Fault::InvalidRegister));
    assert_eq!(vm.fault_for(Opcode::PopReg), Some(Fault::InvalidRegister));
    assert_eq!(vm.fault_for(Opcode::Nop), None);
}

#[test]
fn stack_add_works_without_a_program() {
    let mut vm = VM::new();
    vm.stack.push(3);
    vm.stack.push(4);
    assert_eq!(math_add_stack(&mut vm), Ok(()));
    assert_eq!(vm.stack.pop(), Some(7));
    assert_eq!(vm.stack.pop(), None);
    assert!(!vm.flags.get(Flag::Overflow));
    assert_eq!(vm.prgrm_cntr, 0);
}

#[test]
fn stack_arithmetic_works_without_a_program() {
    let mut vm = VM::new();
    vm.stack.push(3);
    vm.stack.push(10);
    assert_eq!(math_sub_stack(&mut vm), Ok(()));
    assert_eq!(stack_of(&mut vm), vec![7]);
    assert!(!vm.flags.get(Flag::Overflow));

    let mut vm = VM::new();
    vm.stack.push(0);
    vm.stack.push(5);
    assert_eq!(math_mul_stack(&mut vm), Ok(()));
    assert_eq!(stack_of(&mut vm), vec![0]);
    assert!(!vm.flags.get(Flag::Overflow));

    let mut vm = VM::new();
    vm.stack.push(4);
    vm.stack.push(13);
    assert_eq!(math_div_stack(&mut vm), Ok(()));
    assert_eq!(stack_of(&mut vm), vec![3]);
    assert_eq!(vm.flags, FlagSet::new());

    let mut vm = VM::new();
    vm.stack.push(0);
    vm.stack.push(13);
    assert_eq!(math_div_stack(&mut vm), Err(Fault::DivideByZero));
    assert_eq!(stack_of(&mut vm), vec![0, 13]);
}

#[test]
fn stack_bitwise_works_without_a_program() {
    let mut vm = VM::new();
    vm.stack.push(0x0000_ffff);
    assert_eq!(math_not_stack(&mut vm), Ok(()));
    assert_eq!(stack_of(&mut vm), vec![0xffff_0000]);

    let mut vm = VM::new();
    vm.stack.push(0b1100);
    vm.stack.push(0b1010);
    assert_eq!(math_and_stack(&mut vm), Ok(()));
    assert_eq!(stack_of(&mut vm), vec![0b1000]);

    let mut vm = VM::new();
    vm.stack.push(0b1100);
    vm.stack.push(0b1010);
    assert_eq!(math_or_stack(&mut vm), Ok(()));
    assert_eq!(stack_of(&mut vm), vec![0b1110]);

    let mut vm = VM::new();
    vm.stack.push(0b1100);
    vm.stack.push(0b1010);
    assert_eq!(math_xor_stack(&mut vm), Ok(()));
    assert_eq!(stack_of(&mut vm), vec![0b0110]);
}

#[test]
fn operand_less_handlers_ignore_the_program_counter() {
    let mut vm = VM::new();
    assert_eq!(nop(&mut vm), Ok(()));
    assert_eq!(vm.flags, FlagSet::new());
    assert_eq!(exit(&mut vm), Ok(()));
    assert!(vm.flags.get(Flag::Stop));

    let mut vm = machine(&[0x05]);
    vm.prgrm_cntr = 1000;
    vm.stack.push(8);
    assert_eq!(stack_dupe(&mut vm), Ok(()));
    assert_eq!(stack_of(&mut vm), vec![8, 8]);
    assert_eq!(vm.prgrm_cntr, 1000);

    let mut vm = VM::new();
    assert_eq!(math_add_stack(&mut vm), Err(Fault::StackUnderflow));
    assert_eq!(vm.fault_for(Opcode::Nop), None);
    assert_eq!(vm.fault_for(Opcode::MathAddStack), Some(Fault::StackUnderflow));
    assert_eq!(vm.fault_for(Opcode::PushLit), Some(Fault::ProgramCounterOutOfBounds));
}
