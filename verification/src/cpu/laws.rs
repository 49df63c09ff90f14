use vstd::prelude::*;

use super::opcode::{Instruction, decoded, opcode_entry};
use super::addr::{AddressingMode, mode_len};
use super::interrupt::Interrupt;
use super::{brk_interrupt, pulled_status, CpuState, Flags, STACK};
use crate::bus::laws::{lemma_ram_write_other, lemma_ram_write_read, lemma_read_keeps_memory};
use crate::bus::{lemma_bus_access_keeps_wf, lemma_ppu_ticks, BusView};
use crate::mapper::mapper000::MapperView;
use crate::tools::bits::{lemma_compare_flags, lemma_break_unused, lemma_byte_fields, lemma_sign_overflow, lemma_status_flags, lemma_word_fields};
use crate::tools::{hi_byte, lo_byte, set_bits, word};

verus! {

broadcast use super::lemma_operand_in_frame;

/// A byte read as a two's-complement number.
pub open spec fn signed(b: u8) -> int {
    if b < 128 { b as int } else { b - 256 }
}

/// The work RAM holds its 2 KiB.
pub open spec fn ram_wf(s: CpuState) -> bool {
    s.bus.mapper.ppu.memory.cpu_vram.len() == 2048
}

/// ADC: the accumulator becomes the sum of the accumulator, the operand and the carry modulo
/// 256; the carry is set exactly when that sum exceeds 255, the overflow flag exactly when the
/// two's-complement sum leaves -128..127, zero and negative follow the result, and the other
/// flags, the registers and the bus are untouched.
pub proof fn lemma_adc(s: CpuState, data: u8)
    ensures
        ({
            let c: int = s.carry_bit() as int;
            let sum: int = s.accumulator + data + c;
            let r: CpuState = s.added(data);
            &&& r.accumulator == sum % 256
            &&& r.flag(Flags::CARRY) == (sum > 255)
            &&& r.flag(Flags::OVERFLOW) == !(-128 <= signed(s.accumulator) + signed(data) + c <= 127)
            &&& r.flag(Flags::ZERO) == (r.accumulator == 0)
            &&& r.flag(Flags::NEGATIVE) == (r.accumulator >= 128)
            &&& r.status & 0x3Cu8 == s.status & 0x3Cu8
            &&& r == (CpuState { accumulator: r.accumulator, status: r.status, ..s })
        }),
{
    let c: nat = if s.flag(Flags::CARRY) { 1 } else { 0 };
    let sum: nat = s.accumulator as nat + data as nat + c;
    let result: u8 = (sum % 256) as u8;
    let overflow: bool = (data ^ result) & (result ^ s.accumulator) & 0x80u8 != 0;
    lemma_sign_overflow(s.accumulator, data, result);
    lemma_byte_fields(result);
    lemma_status_flags(s.status, sum > 255, overflow, result == 0, result >> 7u8 == 1);
}

/// SBC: the accumulator becomes the accumulator minus the operand minus the borrow (the
/// complement of the carry) modulo 256; the carry is set exactly when no borrow was needed,
/// the overflow flag exactly when the two's-complement difference leaves -128..127.
pub proof fn lemma_sbc(s: CpuState, data: u8)
    ensures
        ({
            let borrow: int = 1 - s.carry_bit();
            let diff: int = s.accumulator - data - borrow;
            let r: CpuState = s.subtracted(data);
            &&& r.accumulator == (diff + 256) % 256
            &&& r.flag(Flags::CARRY) == (diff >= 0)
            &&& r.flag(Flags::OVERFLOW) == !(-128 <= signed(s.accumulator) - signed(data) - borrow <= 127)
            &&& r.flag(Flags::ZERO) == (r.accumulator == 0)
            &&& r.flag(Flags::NEGATIVE) == (r.accumulator >= 128)
            &&& r == (CpuState { accumulator: r.accumulator, status: r.status, ..s })
        }),
{
    lemma_byte_fields(data);
    lemma_adc(s, !data);
}

/// A byte pushed is the byte popped next, and the pop puts the stack pointer back.
pub proof fn lemma_push_pop(s: CpuState, v: u8)
    requires
        ram_wf(s),
    ensures
        s.pushed(v).popped() == (v, s.write((STACK + s.stack_pointer) as u16, v)),
{
    let addr: u16 = (STACK + s.stack_pointer) as u16;
    lemma_ram_write_read(s.bus, addr, addr, v);
    let p: CpuState = s.pushed(v);
    assert(p.stack_pointer.wrapping_add(1) == s.stack_pointer);
}

/// A word pushed is the word popped next, and the pops put the stack pointer back.
pub proof fn lemma_push_pop_u16(s: CpuState, v: u16)
    requires
        ram_wf(s),
    ensures
        s.pushed_u16(v).popped_u16().0 == v,
        s.pushed_u16(v).popped_u16().1.stack_pointer == s.stack_pointer,
        s.pushed_u16(v).popped_u16().1.ok == s.ok,
        s.pushed_u16(v).popped_u16().1 == (CpuState { bus: s.pushed_u16(v).bus, ..s }),
{
    let a1: u16 = (STACK + s.stack_pointer) as u16;
    let s1: CpuState = s.pushed(hi_byte(v));
    let a2: u16 = (STACK + s1.stack_pointer) as u16;
    let s2: CpuState = s1.pushed(lo_byte(v));
    lemma_ram_write_read(s.bus, a1, a1, hi_byte(v));
    lemma_ram_write_read(s1.bus, a2, a2, lo_byte(v));
    lemma_ram_write_other(s1.bus, a2, a1, lo_byte(v));
    let p1: (u8, CpuState) = s2.popped();
    assert(p1.0 == lo_byte(v));
    assert(p1.1.stack_pointer == s1.stack_pointer);
    let p2: (u8, CpuState) = p1.1.popped();
    assert(p2.0 == hi_byte(v));
    assert(word(lo_byte(v), hi_byte(v)) == v);
}

/// A subroutine call followed by a return resumes right after the three-byte call, with the
/// stack pointer where it was.
pub proof fn lemma_jsr_rts(s: CpuState, call: u8, ret: u8)
    requires
        decoded(call).instruction == Instruction::JSR,
        decoded(call).mode == AddressingMode::Absolute,
        s.jsr(decoded(call)).ok,
        s.program_counter < 0xFFFE,
        ram_wf(s),
    ensures
        s.jsr(decoded(call)).rts(decoded(ret)).ok,
        s.jsr(decoded(call)).rts(decoded(ret)).program_counter == s.program_counter + 2,
        s.jsr(decoded(call)).rts(decoded(ret)).stack_pointer == s.stack_pointer,
{
    let o: (u16, bool, CpuState) = s.operand(decoded(call));
    let t: CpuState = o.2.fail_unless(o.2.program_counter < 0xFFFF);
    reveal(CpuState::operand_in);
    let r1: (u8, CpuState) = s.read(s.program_counter);
    lemma_read_keeps_memory(s.bus, s.program_counter);
    lemma_read_keeps_memory(r1.1.bus, s.program_counter.wrapping_add(1));
    lemma_push_pop_u16(t, (o.2.program_counter + 1) as u16);
}

/// Executing a JSR is what the instruction's own step says.
proof fn lemma_executed_call(s: CpuState, op: super::opcode::OpCode)
    requires
        op.instruction == Instruction::JSR,
    ensures
        s.executed(op) == s.jsr(op),
{
    reveal(CpuState::executed);
}

/// Executing an RTS is what the instruction's own step says.
proof fn lemma_executed_return(s: CpuState, op: super::opcode::OpCode)
    requires
        op.instruction == Instruction::RTS,
    ensures
        s.executed(op) == s.rts(op),
{
    reveal(CpuState::executed);
}

/// Executing JSR at address `p` (the program counter then points at its operand, `p + 1`)
/// jumps to the operand word, pushes `p + 2` (the address of the call's last byte) high byte
/// first so that the stack pointer moves down by two; executing RTS next resumes at `p + 3`,
/// right after the call, with the stack pointer back where it was.
pub proof fn lemma_jsr_call(s: CpuState, call: u8, ret: u8)
    requires
        decoded(call).instruction == Instruction::JSR,
        decoded(call).mode == AddressingMode::Absolute,
        decoded(ret).instruction == Instruction::RTS,
        s.executed(decoded(call)).ok,
        s.program_counter < 0xFFFE,
        ram_wf(s),
    ensures
        ({
            let j: CpuState = s.executed(decoded(call));
            let sp: u8 = s.stack_pointer;
            let back: u16 = (s.program_counter + 1) as u16;
            let ram: Seq<u8> = j.bus.mapper.ppu.memory.cpu_vram;
            &&& j.program_counter == s.read_u16(s.program_counter).0
            &&& j.stack_pointer == sp.wrapping_sub(2)
            &&& ram[STACK + sp] == hi_byte(back)
            &&& ram[STACK + sp.wrapping_sub(1)] == lo_byte(back)
            &&& j.executed(decoded(ret)).ok
            &&& j.executed(decoded(ret)).program_counter == s.program_counter + 2
            &&& j.executed(decoded(ret)).stack_pointer == sp
        }),
{
    let j: CpuState = s.executed(decoded(call));
    lemma_executed_call(s, decoded(call));
    lemma_executed_return(j, decoded(ret));
    reveal(CpuState::operand_in);
    reveal(MapperView::write);
    let pc: u16 = s.program_counter;
    let r1: (u8, CpuState) = s.read(pc);
    lemma_read_keeps_memory(s.bus, pc);
    lemma_read_keeps_memory(r1.1.bus, pc.wrapping_add(1));
    let o: (u16, bool, CpuState) = s.operand(decoded(call));
    let t: CpuState = o.2.fail_unless(o.2.program_counter < 0xFFFF);
    let back: u16 = (pc + 1) as u16;
    let a0: u16 = (STACK + t.stack_pointer) as u16;
    let t1: CpuState = t.pushed(hi_byte(back));
    let a1: u16 = (STACK + t1.stack_pointer) as u16;
    lemma_word_fields(a0);
    lemma_word_fields(a1);
    lemma_jsr_rts(s, call, ret);
}

/// Every opcode byte decodes to an instruction of its own length that takes at least one
/// cycle, except the halting `KIL`.
pub proof fn lemma_opcode_table(byte: u8)
    ensures
        decoded(byte).byte == byte,
        decoded(byte).len == mode_len(decoded(byte).mode),
        decoded(byte).cycles > 0 || decoded(byte).instruction == Instruction::KIL,
{
    reveal(opcode_entry);
}

/// Returning from an interrupt (RTI) undoes entering it: the program counter, the status
/// (with the break bit clear and the unused bit set, as every pulled status) and the stack
/// pointer are those from before the interrupt.
pub proof fn lemma_interrupt_return(s: CpuState, i: Interrupt, ret: u8)
    requires
        s.interrupted(i).ok,
        s.bus.wf(),
        ram_wf(s),
        decoded(ret).instruction == Instruction::RTI,
    ensures
        s.interrupted(i).rti(decoded(ret)).ok,
        s.interrupted(i).rti(decoded(ret)).program_counter == s.program_counter,
        s.interrupted(i).rti(decoded(ret)).status == pulled_status(s.status),
        s.interrupted(i).rti(decoded(ret)).stack_pointer == s.stack_pointer,
{
    reveal(MapperView::write);
    reveal(MapperView::write_ok);
    reveal(MapperView::read);
    reveal(MapperView::read_ok);
    let sp: u8 = s.stack_pointer;
    let pc: u16 = s.program_counter;
    let a0: u16 = (STACK + sp) as u16;
    let s0: CpuState = s.pushed(hi_byte(pc));
    let a1: u16 = (STACK + s0.stack_pointer) as u16;
    let s1: CpuState = s0.pushed(lo_byte(pc));
    let flags: u8 = set_bits(set_bits(s1.status, Flags::BREAK, i == brk_interrupt()), Flags::UNUSED, true);
    let a2: u16 = (STACK + s1.stack_pointer) as u16;
    let s2: CpuState = s1.pushed(flags);
    lemma_word_fields(a0);
    lemma_word_fields(a1);
    lemma_word_fields(a2);
    lemma_bus_access_keeps_wf(s.bus, a0, hi_byte(pc));
    lemma_bus_access_keeps_wf(s0.bus, a1, lo_byte(pc));
    lemma_bus_access_keeps_wf(s1.bus, a2, flags);
    let s3: CpuState = s2.with_flag(Flags::INTERRUPT_DISABLE, true);
    let t: BusView = BusView { cpu_cycles: (s3.bus.cpu_cycles + i.cpu_cycles) as usize, ..s3.bus };
    lemma_ppu_ticks(t, 3 * i.cpu_cycles as nat);
    let s4: CpuState = s3.tick(i.cpu_cycles);
    let r1: (u8, CpuState) = s4.read(i.vector_addr);
    lemma_read_keeps_memory(s4.bus, i.vector_addr);
    lemma_read_keeps_memory(r1.1.bus, i.vector_addr.wrapping_add(1));
    let e: CpuState = s.interrupted(i);
    let cv: Seq<u8> = e.bus.mapper.ppu.memory.cpu_vram;
    assert(cv.len() == 2048);
    assert(cv[(a2 % 2048) as int] == flags);
    assert(cv[(a1 % 2048) as int] == lo_byte(pc));
    assert(cv[(a0 % 2048) as int] == hi_byte(pc));
    lemma_break_unused(s.status, i == brk_interrupt());
}

/// CMP, CPX and CPY compare a register with the operand as unsigned bytes: the carry flag is
/// set exactly when the register is greater than or equal to the operand, the zero flag
/// exactly when they are equal, the negative flag is bit 7 of their difference modulo 256,
/// and the overflow, decimal, interrupt-disable, break and unused bits, the registers and
/// the program counter stay as they were.
pub proof fn lemma_compare(s: CpuState, op: super::opcode::OpCode, with: u8)
    ensures
        ({
            let m: u8 = s.fetched(op).0;
            let r: CpuState = s.compared(op, with);
            &&& r.flag(Flags::CARRY) == (with as int >= m as int)
            &&& r.flag(Flags::ZERO) == (with == m)
            &&& r.flag(Flags::NEGATIVE) == ((with as int - m as int + 256) % 256 >= 128)
            &&& r.status & 0x7Cu8 == s.status & 0x7Cu8
            &&& r.accumulator == s.accumulator
            &&& r.index_x == s.index_x
            &&& r.index_y == s.index_y
            &&& r.stack_pointer == s.stack_pointer
            &&& r.program_counter == s.program_counter
        }),
{
    let f: (u8, bool, CpuState) = s.fetched(op);
    let d: u8 = with.wrapping_sub(f.0);
    assert(d as int == (with as int - f.0 as int + 256) % 256);
    lemma_byte_fields(d);
    lemma_compare_flags(f.2.status, f.0 <= with, d == 0, d >> 7u8 == 1);
}

/// CMP compares the accumulator, CPX the X register and CPY the Y register (see
/// `lemma_compare` for what a comparison sets).
pub proof fn lemma_compare_registers(s: CpuState, op: super::opcode::OpCode)
    ensures
        s.cmp(op) == s.compared(op, s.accumulator),
        s.cpx(op) == s.compared(op, s.index_x),
        s.cpy(op) == s.compared(op, s.index_y),
{
}

/// Zero-page addressing: the operand address is the byte `b` at `addr`, plus X (ZeroPage_X)
/// or Y (ZeroPage_Y) modulo 256, and never crosses a page.
pub proof fn lemma_operand_zero_page(s: CpuState, mode: AddressingMode, addr: u16, zp_wrap: bool)
    requires
        mode == AddressingMode::ZeroPage || mode == AddressingMode::ZeroPage_X || mode == AddressingMode::ZeroPage_Y,
    ensures
        ({
            let b: int = s.read(addr).0 as int;
            let r: (u16, bool, CpuState) = s.operand_in(mode, addr, zp_wrap);
            &&& mode == AddressingMode::ZeroPage ==> r.0 == b
            &&& mode == AddressingMode::ZeroPage_X ==> r.0 == (b + s.index_x) % 256
            &&& mode == AddressingMode::ZeroPage_Y ==> r.0 == (b + s.index_y) % 256
            &&& !r.1
        }),
{
    reveal(CpuState::operand_in);
}

/// Absolute addressing: the operand address is the little-endian word `w` at `addr`, plus X
/// (Absolute_X) or Y (Absolute_Y) modulo 65536; indexing crosses a page exactly when the
/// high byte changes.
pub proof fn lemma_operand_absolute(s: CpuState, mode: AddressingMode, addr: u16, zp_wrap: bool)
    requires
        mode == AddressingMode::Absolute || mode == AddressingMode::Absolute_X || mode == AddressingMode::Absolute_Y,
    ensures
        ({
            let lo: (u8, CpuState) = s.read(addr);
            let hi: u8 = lo.1.read(((addr + 1) % 65536) as u16).0;
            let w: int = hi as int * 256 + lo.0 as int;
            let r: (u16, bool, CpuState) = s.operand_in(mode, addr, zp_wrap);
            &&& r.2 == lo.1.read(((addr + 1) % 65536) as u16).1
            &&& mode == AddressingMode::Absolute ==> r.0 == w && !r.1
            &&& mode == AddressingMode::Absolute_X ==> r.0 == (w + s.index_x) % 65536 && r.1 == (r.0 / 256 != w / 256)
            &&& mode == AddressingMode::Absolute_Y ==> r.0 == (w + s.index_y) % 65536 && r.1 == (r.0 / 256 != w / 256)
        }),
{
    reveal(CpuState::operand_in);
}

/// Relative addressing: the target is the address after the operand byte moved by that byte
/// read as a signed number, modulo 65536; a page is crossed when the target's high byte
/// differs from that of the address after the operand.
pub proof fn lemma_operand_relative(s: CpuState, addr: u16, zp_wrap: bool)
    ensures
        ({
            let b: u8 = s.read(addr).0;
            let next: int = (addr + 1) % 65536;
            let r: (u16, bool, CpuState) = s.operand_in(AddressingMode::Relative, addr, zp_wrap);
            &&& r.0 == (next + signed(b) + 65536) % 65536
            &&& r.1 == (r.0 / 256 != next / 256)
        }),
{
    reveal(CpuState::operand_in);
}

/// Indirect addressing (JMP): the target is the word whose address is the word `w` at
/// `addr`; its high byte comes from `w + 1`, or, when `w` ends a page, from the start of the
/// same page.
pub proof fn lemma_operand_indirect(s: CpuState, addr: u16, zp_wrap: bool)
    ensures
        ({
            let t: (u16, CpuState) = s.read_u16(addr);
            let w: int = t.0 as int;
            let lo: (u8, CpuState) = t.1.read(t.0);
            let hi_addr: int = if w % 256 == 0xFF { w - 0xFF } else { w + 1 };
            let hi: (u8, CpuState) = lo.1.read(hi_addr as u16);
            let r: (u16, bool, CpuState) = s.operand_in(AddressingMode::Indirect, addr, zp_wrap);
            &&& 0 <= hi_addr <= 0xFFFF
            &&& r.0 == hi.0 * 256 + lo.0
            &&& !r.1
        }),
{
    reveal(CpuState::operand_in);
}

/// Indexed indirect addressing with zero-page pointers: the operand address is the word in
/// the zero page at the byte `b` at `addr` plus X, both pointer bytes wrapping inside the
/// zero page.
pub proof fn lemma_operand_indexed_indirect(s: CpuState, addr: u16)
    ensures
        ({
            let r1: (u8, CpuState) = s.read(addr);
            let p: int = (r1.0 + s.index_x) % 256;
            let lo: (u8, CpuState) = r1.1.read(p as u16);
            let hi: (u8, CpuState) = lo.1.read(((p + 1) % 256) as u16);
            let r: (u16, bool, CpuState) = s.operand_in(AddressingMode::Indirect_X, addr, true);
            r.0 == hi.0 * 256 + lo.0 && !r.1
        }),
{
    reveal(CpuState::operand_in);
}

/// Indirect indexed addressing with zero-page pointers: the operand address is the word in
/// the zero page at the byte `b` at `addr` (its high byte at `b + 1` wrapping inside the zero
/// page) plus Y modulo 65536; a page is crossed when the high byte changes.
pub proof fn lemma_operand_indirect_indexed(s: CpuState, addr: u16)
    ensures
        ({
            let r1: (u8, CpuState) = s.read(addr);
            let lo: (u8, CpuState) = r1.1.read(r1.0 as u16);
            let hi: (u8, CpuState) = lo.1.read(((r1.0 + 1) % 256) as u16);
            let base: int = hi.0 * 256 + lo.0;
            let r: (u16, bool, CpuState) = s.operand_in(AddressingMode::Indirect_Y, addr, true);
            r.0 == (base + s.index_y) % 65536 && r.1 == (r.0 / 256 != base / 256)
        }),
{
    reveal(CpuState::operand_in);
}

} // verus!
