use vstd::prelude::*;

use super::opcode::OpCode;
use super::{CPU, CpuState, Flags, STACK};
use crate::tools::{u16_to_bytes, bytes_to_u16};

verus! {

broadcast use super::lemma_operand_in_frame;

// ============================
//   Stack Operations
// ============================

/// Pushes a byte onto the stack.
pub fn stack_push(cpu: &mut CPU, data: u8)
    requires
        old(cpu)@.pushed(data).ok,
        old(cpu)@.bus.wf(),
    ensures
        final(cpu)@ == old(cpu)@.pushed(data),
        final(cpu)@.bus.wf(),
{
    let addr: u16 = STACK + cpu.stack_pointer as u16;
    cpu.bus_write(addr, data);
    cpu.stack_pointer = cpu.stack_pointer.wrapping_sub(1)
}

/// Pushes a word onto the stack, high byte first.
pub fn stack_push_u16(cpu: &mut CPU, data: u16)
    requires
        old(cpu)@.pushed_u16(data).ok,
        old(cpu)@.bus.wf(),
    ensures
        final(cpu)@ == old(cpu)@.pushed_u16(data),
        final(cpu)@.bus.wf(),
{
    let data: [u8; 2] = u16_to_bytes(data);
    stack_push(cpu, data[1]);
    stack_push(cpu, data[0]);
}

/// Pops a byte off the stack.
pub fn stack_pop(cpu: &mut CPU) -> (data: u8)
    requires
        old(cpu)@.popped().1.ok,
        old(cpu)@.bus.wf(),
    ensures
        (data, final(cpu)@) == old(cpu)@.popped(),
        final(cpu)@.bus.wf(),
{
    cpu.stack_pointer = cpu.stack_pointer.wrapping_add(1);
    let addr: u16 = STACK + cpu.stack_pointer as u16;
    cpu.bus_read(addr)
}

/// Pops a word off the stack, low byte first.
pub fn stack_pop_u16(cpu: &mut CPU) -> (data: u16)
    requires
        old(cpu)@.popped_u16().1.ok,
        old(cpu)@.bus.wf(),
    ensures
        (data, final(cpu)@) == old(cpu)@.popped_u16(),
        final(cpu)@.bus.wf(),
{
    let lo: u8 = stack_pop(cpu);
    let hi: u8 = stack_pop(cpu);
    bytes_to_u16(&[lo, hi])
}

// ============================
//   Instruction Logic
// ============================

/// A conditional branch (see `CpuState::branched`).
pub fn branch(cpu: &mut CPU, opcode: &OpCode, condition: bool)
    requires
        old(cpu)@.branched(*opcode, condition).ok,
        old(cpu)@.bus.wf(),
    ensures
        final(cpu)@ == old(cpu)@.branched(*opcode, condition),
        final(cpu)@.bus.wf(),
{
    if condition {
        cpu.bus_tick(1);
        let (addr, page_cross): (u16, bool) = opcode.get_operand_address(cpu);
        if page_cross {
            cpu.bus_tick(1);
        }
        cpu.program_counter = addr;
    }
}

/// CMP, CPX, CPY: carry when `compare_with` is at least the operand; zero and negative from
/// the difference.
pub fn compare(cpu: &mut CPU, opcode: &OpCode, compare_with: u8)
    requires
        old(cpu)@.compared(*opcode, compare_with).ok,
        old(cpu)@.bus.wf(),
    ensures
        final(cpu)@ == old(cpu)@.compared(*opcode, compare_with),
        final(cpu)@.bus.wf(),
{
    let (addr, page_cross): (u16, bool) = opcode.get_operand_address(cpu);
    let data: u8 = cpu.bus_read(addr);
    if data <= compare_with {
        cpu.status.insert(Flags::CARRY);
    } else {
        cpu.status.remove(Flags::CARRY);
    }
    update_flags_z(cpu, compare_with.wrapping_sub(data));
    update_flags_n(cpu, compare_with.wrapping_sub(data));
    if page_cross {
        cpu.bus_tick(1);
    }
}

// ============================
//   Modifying Registers
// ============================

pub fn set_index_x(cpu: &mut CPU, value: u8)
    ensures
        final(cpu)@ == old(cpu)@.with_x(value),
{
    cpu.index_x = value;
    update_flags_z(cpu, value);
    update_flags_n(cpu, value);
}

pub fn set_index_y(cpu: &mut CPU, value: u8)
    ensures
        final(cpu)@ == old(cpu)@.with_y(value),
{
    cpu.index_y = value;
    update_flags_z(cpu, value);
    update_flags_n(cpu, value);
}

pub fn set_accumulator(cpu: &mut CPU, value: u8)
    ensures
        final(cpu)@ == old(cpu)@.with_a(value),
{
    cpu.accumulator = value;
    update_flags_z(cpu, value);
    update_flags_n(cpu, value);
}

/// ADC (see `CpuState::added`).
pub fn add_to_accumulator(cpu: &mut CPU, data: u8)
    ensures
        final(cpu)@ == old(cpu)@.added(data),
{
    let sum: u16 = cpu.accumulator as u16 + data as u16 + (if cpu.status.contains(Flags::CARRY) {
        1
    } else {
        0
    }) as u16;
    let carry: bool = sum > 0x00FF;
    if carry {
        cpu.status.insert(Flags::CARRY);
    } else {
        cpu.status.remove(Flags::CARRY);
    }
    let result: u8 = sum as u8;
    assert(result == sum % 256) by (bit_vector)
        requires
            result == sum as u8,
    ;
    let a: u8 = cpu.accumulator;
    if (data ^ result) & (result ^ a) & 0x80 != 0 {
        cpu.status.insert(Flags::OVERFLOW);
    } else {
        cpu.status.remove(Flags::OVERFLOW)
    }
    set_accumulator(cpu, result);
}

/// SBC: ADC of the one's complement of `data` (which is `-data - 1` in two's complement).
pub fn sub_from_accumulator(cpu: &mut CPU, data: u8)
    ensures
        final(cpu)@ == old(cpu)@.subtracted(data),
{
    add_to_accumulator(cpu, !data);
}

// ============================
//   Updating CPU Status
// ============================

pub fn update_flag_if(cpu: &mut CPU, flag: u8, condition: bool)
    ensures
        final(cpu)@ == old(cpu)@.with_flag(flag, condition),
{
    if condition {
        cpu.status.insert(flag);
    } else {
        cpu.status.remove(flag);
    }
}

pub fn update_flags_zn(cpu: &mut CPU, value: u8)
    ensures
        final(cpu)@ == old(cpu)@.with_zn(value),
{
    update_flags_z(cpu, value);
    update_flags_n(cpu, value);
}

pub fn update_flags_z(cpu: &mut CPU, value: u8)
    ensures
        final(cpu)@ == old(cpu)@.with_z(value),
{
    if value == 0 {
        cpu.status.insert(Flags::ZERO);
    } else {
        cpu.status.remove(Flags::ZERO);
    }
}

pub fn update_flags_n(cpu: &mut CPU, value: u8)
    ensures
        final(cpu)@ == old(cpu)@.with_n(value),
{
    if value >> 7 == 1 {
        cpu.status.insert(Flags::NEGATIVE);
    } else {
        cpu.status.remove(Flags::NEGATIVE);
    }
}

} // verus!
