use vstd::prelude::*;

use super::bits::lemma_word_fields;

use super::text::{ascii_upper, hex, make_ascii_upper, padded, push_all, push_hex, push_str, pad, to_text, trim_end, trimmed_end};
use super::{bytes_to_u16, word};
use crate::cpu::addr::{AddressingMode, addresses_memory, mode_len};
use crate::cpu::opcode::{Instruction, OpCode, decode_opcode, decoded};
use crate::cpu::{CPU, CpuState};
use crate::cpu::laws::{
    lemma_operand_absolute, lemma_operand_indexed_indirect, lemma_operand_indirect_indexed, lemma_operand_zero_page,
};

verus! {

broadcast use crate::cpu::lemma_operand_in_frame;

/// The addresses whose reads have side effects (the PPU registers and the controller
/// ports): a trace shows 0 for the value there instead of reading it.
pub open spec fn non_readable(addr: u16) -> bool {
    0x2000 <= addr <= 0x2007 || addr == 0x4016 || addr == 0x4017
}

/// Whether a read of `addr` has side effects (see `non_readable`).
pub fn is_non_readable(addr: u16) -> (r: bool)
    ensures
        r == non_readable(addr),
{
    (0x2000 <= addr && addr <= 0x2007) || addr == 0x4016 || addr == 0x4017
}

/// The undocumented instructions, which a trace marks with `*`.
pub open spec fn undocumented(i: Instruction) -> bool {
    match i {
        Instruction::NOP_ALT | Instruction::SLO | Instruction::RLA | Instruction::SRE | Instruction::RRA
        | Instruction::SAX | Instruction::LAX | Instruction::DCP | Instruction::ISC | Instruction::ANC
        | Instruction::ALR | Instruction::ARR | Instruction::XAA | Instruction::AXS | Instruction::SBC_NOP
        | Instruction::AHX | Instruction::SHY | Instruction::SHX | Instruction::TAS | Instruction::LAS
        | Instruction::KIL => true,
        _ => false,
    }
}

/// The accumulator forms of ASL, ROL, LSR and ROR, which a trace shows with the operand `A`.
pub open spec fn accumulator_shift(byte: u8) -> bool {
    byte == 0x0A || byte == 0x2A || byte == 0x4A || byte == 0x6A
}

/// The target a trace shows for a branch at `begin` with offset byte `offset`: the address
/// after the instruction moved by the signed offset, computed in `usize`.
pub open spec fn relative_target(begin: u16, offset: u8) -> usize {
    let t: int = begin + 2 + (if offset < 128 { offset as int } else { offset - 256 });
    if t >= 0 { t as usize } else { (t + usize::MAX + 1) as usize }
}

/// The memory operand a trace shows for `op` at `begin`: its address, the value stored there
/// (0 where a read has side effects) and the state after the reads. Modes without a memory
/// operand show address 0 and value 0.
pub open spec fn traced_operand(s: CpuState, op: OpCode, begin: u16) -> (u16, u8, CpuState) {
    if !addresses_memory(op.mode) {
        (0, 0, s)
    } else {
        let a: (u16, bool, CpuState) = s.fail_unless(begin < 0xFFFF).operand_in(op.mode, (begin + 1) as u16, true);
        if non_readable(a.0) {
            (a.0, 0, a.2)
        } else {
            let r: (u8, CpuState) = a.2.read(a.0);
            (a.0, r.0, r.1)
        }
    }
}

/// The operand text of a two-byte instruction at `begin`, its operand byte and the state after
/// reading it; `mem_addr` and `stored` are what `traced_operand` found.
pub open spec fn traced_text2(s: CpuState, op: OpCode, begin: u16, mem_addr: u16, stored: u8) -> (Seq<char>, u8, CpuState) {
    let r: (u8, CpuState) = s.fail_unless(begin < 0xFFFF).read((begin + 1) as u16);
    let a: u8 = r.0;
    let text: Seq<char> = match op.mode {
        AddressingMode::Immediate => "#$"@ + hex(a as nat, 2),
        AddressingMode::ZeroPage => "$"@ + hex(mem_addr as nat, 2) + " = "@ + hex(stored as nat, 2),
        AddressingMode::ZeroPage_X => "$"@ + hex(a as nat, 2) + ",X @ "@ + hex(mem_addr as nat, 2) + " = "@
            + hex(stored as nat, 2),
        AddressingMode::ZeroPage_Y => "$"@ + hex(a as nat, 2) + ",Y @ "@ + hex(mem_addr as nat, 2) + " = "@
            + hex(stored as nat, 2),
        AddressingMode::Indirect_X => "($"@ + hex(a as nat, 2) + ",X) @ "@ + hex(a.wrapping_add(s.index_x) as nat, 2)
            + " = "@ + hex(mem_addr as nat, 4) + " = "@ + hex(stored as nat, 2),
        AddressingMode::Indirect_Y => "($"@ + hex(a as nat, 2) + "),Y = "@
            + hex(mem_addr.wrapping_sub(s.index_y as u16) as nat, 4) + " @ "@ + hex(mem_addr as nat, 4) + " = "@
            + hex(stored as nat, 2),
        _ => "$"@ + hex(relative_target(begin, a) as nat, 4),
    };
    (text, a, r.1)
}

/// The operand text of a three-byte instruction at `begin`, its two operand bytes and the
/// state after the reads; an indirect jump also shows where it lands.
pub open spec fn traced_text3(s: CpuState, op: OpCode, begin: u16, mem_addr: u16, stored: u8) -> (Seq<char>, u8, u8, CpuState) {
    let lo: (u8, CpuState) = s.fail_unless(begin < 0xFFFE).read((begin + 1) as u16);
    let hi: (u8, CpuState) = lo.1.read((begin + 2) as u16);
    let w: (u16, CpuState) = hi.1.read_u16((begin + 1) as u16);
    let address: u16 = w.0;
    let t: (Seq<char>, CpuState) = match op.mode {
        AddressingMode::Indirect => if op.byte == 0x6C {
            let j: (u16, CpuState) = if address % 256 == 0xFF {
                let l: (u8, CpuState) = w.1.read(address);
                let h: (u8, CpuState) = l.1.read((address / 256 * 256) as u16);
                (word(l.0, h.0), h.1)
            } else {
                w.1.read_u16(address)
            };
            ("($"@ + hex(address as nat, 4) + ") = "@ + hex(j.0 as nat, 4), j.1)
        } else {
            ("$"@ + hex(address as nat, 4), w.1)
        },
        AddressingMode::Absolute => if op.byte == 0x4C || op.byte == 0x20 {
            ("$"@ + hex(mem_addr as nat, 4), w.1)
        } else {
            ("$"@ + hex(mem_addr as nat, 4) + " = "@ + hex(stored as nat, 2), w.1)
        },
        AddressingMode::Absolute_X => ("$"@ + hex(address as nat, 4) + ",X @ "@ + hex(mem_addr as nat, 4) + " = "@
            + hex(stored as nat, 2), w.1),
        _ => ("$"@ + hex(address as nat, 4) + ",Y @ "@ + hex(mem_addr as nat, 4) + " = "@ + hex(stored as nat, 2), w.1),
    };
    (t.0, lo.0, hi.0, t.1)
}

/// The trace line of the instruction at the program counter of `s`, in the layout of the
/// widely used nestest log: address, instruction bytes, disassembly (with `*` before
/// undocumented instructions) and registers, upper-cased; and the state after the bus reads
/// it made.
pub open spec fn trace_line(s: CpuState) -> (Seq<char>, CpuState) {
    let begin: u16 = s.program_counter;
    let r: (u8, CpuState) = s.read(begin);
    let op: OpCode = decoded(r.0);
    let m: (u16, u8, CpuState) = traced_operand(r.1, op, begin);
    let t: (Seq<char>, Seq<char>, CpuState) = if op.len == 1 {
        (if accumulator_shift(r.0) { "A "@ } else { Seq::empty() }, hex(r.0 as nat, 2), m.2)
    } else if op.len == 2 {
        let o: (Seq<char>, u8, CpuState) = traced_text2(m.2, op, begin, m.0, m.1);
        (o.0, hex(r.0 as nat, 2) + " "@ + hex(o.1 as nat, 2), o.2)
    } else {
        let o: (Seq<char>, u8, u8, CpuState) = traced_text3(m.2, op, begin, m.0, m.1);
        (o.0, hex(r.0 as nat, 2) + " "@ + hex(o.1 as nat, 2) + " "@ + hex(o.2 as nat, 2), o.3)
    };
    let marker: Seq<char> = if undocumented(op.instruction) { "*"@ } else { " "@ };
    let disasm: Seq<char> = trimmed_end(
        hex(begin as nat, 4) + "  "@ + padded(t.1, 8) + " "@ + marker + op.mnemonic@ + " "@ + t.0,
    );
    let line: Seq<char> = padded(disasm, 47) + " A:"@ + hex(s.accumulator as nat, 2) + " X:"@ + hex(s.index_x as nat, 2)
        + " Y:"@ + hex(s.index_y as nat, 2) + " P:"@ + hex(s.status as nat, 2) + " SP:"@
        + hex(s.stack_pointer as nat, 2);
    (ascii_upper(line), t.2)
}

/// Finds the memory operand of `opcode` at `begin` for a trace (see `traced_operand`).
fn trace_operand(cpu: &mut CPU, opcode: &OpCode, begin: u16) -> (r: (u16, u8))
    requires
        traced_operand(old(cpu)@, *opcode, begin).2.ok,
        old(cpu)@.bus.wf(),
    ensures
        (r.0, r.1, final(cpu)@) == traced_operand(old(cpu)@, *opcode, begin),
        final(cpu)@.bus.wf(),
{
    match opcode.mode {
        AddressingMode::Implicit | AddressingMode::Accumulator | AddressingMode::Immediate => (0, 0),
        _ => {
            let (addr, _): (u16, bool) = opcode.get_absolute_address(cpu, begin + 1);
            if !is_non_readable(addr) {
                let value: u8 = cpu.bus_read(addr);
                (addr, value)
            } else {
                (addr, 0)
            }
        },
    }
}

/// The operand text of a two-byte instruction (see `traced_text2`).
fn trace_text2(cpu: &mut CPU, opcode: &OpCode, begin: u16, mem_addr: u16, stored: u8) -> (r: (Vec<char>, u8))
    requires
        traced_text2(old(cpu)@, *opcode, begin, mem_addr, stored).2.ok,
        mode_len(opcode.mode) == 2,
        old(cpu)@.bus.wf(),
    ensures
        ({
            let t: (Seq<char>, u8, CpuState) = traced_text2(old(cpu)@, *opcode, begin, mem_addr, stored);
            r.0@ == t.0 && r.1 == t.1 && final(cpu)@ == t.2
        }),
        final(cpu)@.bus.wf(),
{
    let x: u8 = cpu.index_x;
    let y: u8 = cpu.index_y;
    let address: u8 = cpu.bus_read(begin + 1);
    let mut t: Vec<char> = Vec::new();
    let ghost e: Seq<char> = t@;
    match opcode.mode {
        AddressingMode::Immediate => {
            push_str(&mut t, "#$");
            push_hex(&mut t, address as u64, 2);
            assert(t@ =~= "#$"@ + hex(address as nat, 2));
        },
        AddressingMode::ZeroPage => {
            push_str(&mut t, "$");
            push_hex(&mut t, mem_addr as u64, 2);
            push_str(&mut t, " = ");
            push_hex(&mut t, stored as u64, 2);
            assert(t@ =~= "$"@ + hex(mem_addr as nat, 2) + " = "@ + hex(stored as nat, 2));
        },
        AddressingMode::ZeroPage_X => {
            push_str(&mut t, "$");
            push_hex(&mut t, address as u64, 2);
            push_str(&mut t, ",X @ ");
            push_hex(&mut t, mem_addr as u64, 2);
            push_str(&mut t, " = ");
            push_hex(&mut t, stored as u64, 2);
            assert(t@ =~= "$"@ + hex(address as nat, 2) + ",X @ "@ + hex(mem_addr as nat, 2) + " = "@
                + hex(stored as nat, 2));
        },
        AddressingMode::ZeroPage_Y => {
            push_str(&mut t, "$");
            push_hex(&mut t, address as u64, 2);
            push_str(&mut t, ",Y @ ");
            push_hex(&mut t, mem_addr as u64, 2);
            push_str(&mut t, " = ");
            push_hex(&mut t, stored as u64, 2);
            assert(t@ =~= "$"@ + hex(address as nat, 2) + ",Y @ "@ + hex(mem_addr as nat, 2) + " = "@
                + hex(stored as nat, 2));
        },
        AddressingMode::Indirect_X => {
            push_str(&mut t, "($");
            push_hex(&mut t, address as u64, 2);
            push_str(&mut t, ",X) @ ");
            push_hex(&mut t, address.wrapping_add(x) as u64, 2);
            push_str(&mut t, " = ");
            push_hex(&mut t, mem_addr as u64, 4);
            push_str(&mut t, " = ");
            push_hex(&mut t, stored as u64, 2);
            assert(t@ =~= "($"@ + hex(address as nat, 2) + ",X) @ "@ + hex(address.wrapping_add(x) as nat, 2)
                + " = "@ + hex(mem_addr as nat, 4) + " = "@ + hex(stored as nat, 2));
        },
        AddressingMode::Indirect_Y => {
            push_str(&mut t, "($");
            push_hex(&mut t, address as u64, 2);
            push_str(&mut t, "),Y = ");
            push_hex(&mut t, mem_addr.wrapping_sub(y as u16) as u64, 4);
            push_str(&mut t, " @ ");
            push_hex(&mut t, mem_addr as u64, 4);
            push_str(&mut t, " = ");
            push_hex(&mut t, stored as u64, 2);
            assert(t@ =~= "($"@ + hex(address as nat, 2) + "),Y = "@
                + hex(mem_addr.wrapping_sub(y as u16) as nat, 4) + " @ "@ + hex(mem_addr as nat, 4) + " = "@
                + hex(stored as nat, 2));
        },
        _ => {
            let base: usize = begin as usize + 2;
            let target: usize = if address < 128 {
                base + address as usize
            } else {
                let back: usize = 256 - address as usize;
                if base >= back { base - back } else { usize::MAX - (back - base) + 1 }
            };
            assert(target == relative_target(begin, address));
            push_str(&mut t, "$");
            push_hex(&mut t, target as u64, 4);
            assert(t@ =~= "$"@ + hex(relative_target(begin, address) as nat, 4));
        },
    }
    (t, address)
}

/// The operand text of a three-byte instruction (see `traced_text3`).
fn trace_text3(cpu: &mut CPU, opcode: &OpCode, begin: u16, mem_addr: u16, stored: u8) -> (r: (Vec<char>, u8, u8))
    requires
        traced_text3(old(cpu)@, *opcode, begin, mem_addr, stored).3.ok,
        mode_len(opcode.mode) == 3,
        old(cpu)@.bus.wf(),
    ensures
        ({
            let t: (Seq<char>, u8, u8, CpuState) = traced_text3(old(cpu)@, *opcode, begin, mem_addr, stored);
            r.0@ == t.0 && r.1 == t.1 && r.2 == t.2 && final(cpu)@ == t.3
        }),
        final(cpu)@.bus.wf(),
{
    let address_lo: u8 = cpu.bus_read(begin + 1);
    let address_hi: u8 = cpu.bus_read(begin + 2);
    let address: u16 = cpu.bus_read_u16(begin + 1);
    let mut t: Vec<char> = Vec::new();
    match opcode.mode {
        AddressingMode::Indirect => {
            if opcode.byte == 0x6C {
                let jmp_addr: u16 = if address & 0x00FF == 0x00FF {
                    proof {
                        lemma_word_fields(address);
                    }
                    let lo: u8 = cpu.bus_read(address);
                    let hi: u8 = cpu.bus_read(address & 0xFF00);
                    bytes_to_u16(&[lo, hi])
                } else {
                    proof {
                        lemma_word_fields(address);
                    }
                    cpu.bus_read_u16(address)
                };
                push_str(&mut t, "($");
                push_hex(&mut t, address as u64, 4);
                push_str(&mut t, ") = ");
                push_hex(&mut t, jmp_addr as u64, 4);
                assert(t@ =~= "($"@ + hex(address as nat, 4) + ") = "@ + hex(jmp_addr as nat, 4));
            } else {
                push_str(&mut t, "$");
                push_hex(&mut t, address as u64, 4);
                assert(t@ =~= "$"@ + hex(address as nat, 4));
            }
        },
        AddressingMode::Absolute => {
            if opcode.byte == 0x4C || opcode.byte == 0x20 {
                push_str(&mut t, "$");
                push_hex(&mut t, mem_addr as u64, 4);
                assert(t@ =~= "$"@ + hex(mem_addr as nat, 4));
            } else {
                push_str(&mut t, "$");
                push_hex(&mut t, mem_addr as u64, 4);
                push_str(&mut t, " = ");
                push_hex(&mut t, stored as u64, 2);
                assert(t@ =~= "$"@ + hex(mem_addr as nat, 4) + " = "@ + hex(stored as nat, 2));
            }
        },
        AddressingMode::Absolute_X => {
            push_str(&mut t, "$");
            push_hex(&mut t, address as u64, 4);
            push_str(&mut t, ",X @ ");
            push_hex(&mut t, mem_addr as u64, 4);
            push_str(&mut t, " = ");
            push_hex(&mut t, stored as u64, 2);
            assert(t@ =~= "$"@ + hex(address as nat, 4) + ",X @ "@ + hex(mem_addr as nat, 4) + " = "@
                + hex(stored as nat, 2));
        },
        _ => {
            push_str(&mut t, "$");
            push_hex(&mut t, address as u64, 4);
            push_str(&mut t, ",Y @ ");
            push_hex(&mut t, mem_addr as u64, 4);
            push_str(&mut t, " = ");
            push_hex(&mut t, stored as u64, 2);
            assert(t@ =~= "$"@ + hex(address as nat, 4) + ",Y @ "@ + hex(mem_addr as nat, 4) + " = "@
                + hex(stored as nat, 2));
        },
    }
    (t, address_lo, address_hi)
}

/// The trace line of the instruction at the program counter (see `trace_line`); the reads it
/// makes go over the bus, with their effects.
pub fn trace(cpu: &mut CPU) -> (line: String)
    requires
        trace_line(old(cpu)@).1.ok,
        old(cpu)@.bus.wf(),
    ensures
        line@ == trace_line(old(cpu)@).0,
        final(cpu)@ == trace_line(old(cpu)@).1,
        final(cpu)@.bus.wf(),
{
    let begin: u16 = cpu.program_counter;
    let a: u8 = cpu.accumulator;
    let x: u8 = cpu.index_x;
    let y: u8 = cpu.index_y;
    let p: u8 = cpu.status.bits();
    let sp: u8 = cpu.stack_pointer;
    let opbyte: u8 = cpu.bus_read(begin);
    let opcode: OpCode = decode_opcode(opbyte);
    let (mem_addr, stored_value): (u16, u8) = trace_operand(cpu, &opcode, begin);
    let mut bytes: Vec<char> = Vec::new();
    push_hex(&mut bytes, opbyte as u64, 2);
    let tmp: Vec<char> = if opcode.len == 1 {
        let mut tmp: Vec<char> = Vec::new();
        if opbyte == 0x0A || opbyte == 0x2A || opbyte == 0x4A || opbyte == 0x6A {
            push_str(&mut tmp, "A ");
        }
        tmp
    } else if opcode.len == 2 {
        let (tmp, operand): (Vec<char>, u8) = trace_text2(cpu, &opcode, begin, mem_addr, stored_value);
        push_str(&mut bytes, " ");
        push_hex(&mut bytes, operand as u64, 2);
        tmp
    } else {
        let (tmp, lo, hi): (Vec<char>, u8, u8) = trace_text3(cpu, &opcode, begin, mem_addr, stored_value);
        push_str(&mut bytes, " ");
        push_hex(&mut bytes, lo as u64, 2);
        push_str(&mut bytes, " ");
        push_hex(&mut bytes, hi as u64, 2);
        tmp
    };
    let undocumented_op: bool = match opcode.instruction {
        Instruction::NOP_ALT | Instruction::SLO | Instruction::RLA | Instruction::SRE | Instruction::RRA
        | Instruction::SAX | Instruction::LAX | Instruction::DCP | Instruction::ISC | Instruction::ANC
        | Instruction::ALR | Instruction::ARR | Instruction::XAA | Instruction::AXS | Instruction::SBC_NOP
        | Instruction::AHX | Instruction::SHY | Instruction::SHX | Instruction::TAS | Instruction::LAS
        | Instruction::KIL => true,
        _ => false,
    };
    let mut disasm: Vec<char> = Vec::new();
    push_hex(&mut disasm, begin as u64, 4);
    push_str(&mut disasm, "  ");
    pad(&mut bytes, 8);
    push_all(&mut disasm, &bytes);
    push_str(&mut disasm, " ");
    if undocumented_op {
        push_str(&mut disasm, "*");
    } else {
        push_str(&mut disasm, " ");
    }
    push_str(&mut disasm, opcode.mnemonic);
    push_str(&mut disasm, " ");
    push_all(&mut disasm, &tmp);
    trim_end(&mut disasm);
    pad(&mut disasm, 47);
    push_str(&mut disasm, " A:");
    push_hex(&mut disasm, a as u64, 2);
    push_str(&mut disasm, " X:");
    push_hex(&mut disasm, x as u64, 2);
    push_str(&mut disasm, " Y:");
    push_hex(&mut disasm, y as u64, 2);
    push_str(&mut disasm, " P:");
    push_hex(&mut disasm, p as u64, 2);
    push_str(&mut disasm, " SP:");
    push_hex(&mut disasm, sp as u64, 2);
    make_ascii_upper(&mut disasm);
    to_text(&disasm)
}

/// The column headings of a memory dump.
pub open spec fn dump_header() -> Seq<char> {
    "ADDR   00 01 02 03 04 05 06 07  08 09 0A 0B 0C 0D 0E 0F  ASCII\n-------------------------------------------------------------------------\n"@
}

/// How a byte shows in the text column of a dump: printable ASCII as itself, anything
/// else (space and DEL included) as `.`.
pub open spec fn dump_char(b: u8) -> char {
    if b <= 0x20 || b >= 0x7E { '.' } else { b as char }
}

/// Whether address `a` lies in the dumped range `start..=end`.
pub open spec fn dumped(a: int, start: u16, end: u16) -> bool {
    start <= a <= end
}

/// The hex cells of a dump line at `base` for columns `from` to `from + n - 1`: the byte
/// and a space for a dumped address, three spaces for any other.
pub open spec fn hex_cells(mem: Seq<u8>, base: int, from: int, n: nat, start: u16, end: u16) -> Seq<char>
    decreases n,
{
    if n == 0 {
        Seq::empty()
    } else {
        let a: int = base + from + n - 1;
        hex_cells(mem, base, from, (n - 1) as nat, start, end) + if dumped(a, start, end) {
            hex(mem[a] as nat, 2) + " "@
        } else {
            "   "@
        }
    }
}

/// The text cells of a dump line at `base` for its first `n` columns.
pub open spec fn text_cells(mem: Seq<u8>, base: int, n: nat, start: u16, end: u16) -> Seq<char>
    decreases n,
{
    if n == 0 {
        Seq::empty()
    } else {
        let a: int = base + n - 1;
        text_cells(mem, base, (n - 1) as nat, start, end).push(
            if dumped(a, start, end) { dump_char(mem[a]) } else { ' ' },
        )
    }
}

/// Dump line `line` (the 16 bytes from `line * 16`): address, two groups of eight hex
/// cells, and the text column.
pub open spec fn dump_line(mem: Seq<u8>, line: int, start: u16, end: u16) -> Seq<char> {
    let base: int = line * 16;
    hex(base as nat, 4) + ":  "@ + hex_cells(mem, base, 0, 8, start, end) + " "@ + hex_cells(mem, base, 8, 8, start, end)
        + " "@ + text_cells(mem, base, 16, start, end) + "\n"@
}

/// The dump lines `first` to `first + n - 1`.
pub open spec fn dump_lines(mem: Seq<u8>, first: int, n: nat, start: u16, end: u16) -> Seq<char>
    decreases n,
{
    if n == 0 {
        Seq::empty()
    } else {
        dump_lines(mem, first, (n - 1) as nat, start, end) + dump_line(mem, first + n - 1, start, end)
    }
}

/// A hex dump of `memory` from `start_addr` to `end_addr`, in whole lines of 16 bytes from the
/// line of `start_addr` to the line of `end_addr`, after the column headings.
pub open spec fn memory_dump(mem: Seq<u8>, start: u16, end: u16) -> Seq<char> {
    let first: int = start as int / 16;
    let last: int = end as int / 16;
    dump_header() + dump_lines(mem, first, if last >= first { (last - first + 1) as nat } else { 0 }, start, end)
}

/// Appends the hex cells for columns `from` to `from + 7` of the line at `base`.
fn push_hex_cells(out: &mut Vec<char>, memory: &[u8], base: u16, from: u16, start: u16, end: u16)
    requires
        base as int % 16 == 0,
        from == 0 || from == 8,
        base as int + 15 <= u16::MAX,
        start > end || (end as int) < memory@.len(),
    ensures
        final(out)@ == old(out)@ + hex_cells(memory@, base as int, from as int, 8, start, end),
{
    let mut k: u16 = 0;
    while k < 8
        invariant
            k <= 8,
            from == 0 || from == 8,
            base as int + 15 <= u16::MAX,
            start > end || (end as int) < memory@.len(),
            out@ == old(out)@ + hex_cells(memory@, base as int, from as int, k as nat, start, end),
        decreases 8 - k,
    {
        let a: u16 = base + from + k;
        let ghost before: Seq<char> = out@;
        if a < start || a > end {
            push_str(out, "   ");
        } else {
            push_hex(out, memory[a as usize] as u64, 2);
            push_str(out, " ");
        }
        k = k + 1;
        proof {
            let prev: Seq<char> = hex_cells(memory@, base as int, from as int, (k - 1) as nat, start, end);
            assert(hex_cells(memory@, base as int, from as int, k as nat, start, end) == prev + if dumped(
                a as int,
                start,
                end,
            ) {
                hex(memory@[a as int] as nat, 2) + " "@
            } else {
                "   "@
            });
            assert(out@ =~= old(out)@ + hex_cells(memory@, base as int, from as int, k as nat, start, end));
        }
    }
}

/// Appends the text column of the line at `base`.
fn push_text_cells(out: &mut Vec<char>, memory: &[u8], base: u16, start: u16, end: u16)
    requires
        base as int + 15 <= u16::MAX,
        start > end || (end as int) < memory@.len(),
    ensures
        final(out)@ == old(out)@ + text_cells(memory@, base as int, 16, start, end),
{
    let mut k: u16 = 0;
    while k < 16
        invariant
            k <= 16,
            base as int + 15 <= u16::MAX,
            start > end || (end as int) < memory@.len(),
            out@ == old(out)@ + text_cells(memory@, base as int, k as nat, start, end),
        decreases 16 - k,
    {
        let a: u16 = base + k;
        let c: char = if a < start || a > end {
            ' '
        } else {
            let b: u8 = memory[a as usize];
            if b <= 0x20 || b >= 0x7E { '.' } else { b as char }
        };
        out.push(c);
        k = k + 1;
        assert(out@ =~= old(out)@ + text_cells(memory@, base as int, k as nat, start, end));
    }
}

/// A hex dump of `memory` from `start_addr` to `end_addr` (see `memory_dump`).
pub fn format_mem(memory: &[u8], start_addr: u16, end_addr: u16) -> (dump: String)
    requires
        start_addr > end_addr || (end_addr as int) < memory@.len(),
    ensures
        dump@ == memory_dump(memory@, start_addr, end_addr),
{
    let mut out: Vec<char> = Vec::new();
    push_str(
        &mut out,
        "ADDR   00 01 02 03 04 05 06 07  08 09 0A 0B 0C 0D 0E 0F  ASCII\n-------------------------------------------------------------------------\n",
    );
    let first: u16 = start_addr >> 4;
    let last: u16 = end_addr >> 4;
    proof {
        lemma_word_fields(start_addr);
        lemma_word_fields(end_addr);
    }
    let ghost header: Seq<char> = out@;
    let mut line: u16 = first;
    while line < last + 1
        invariant
            first <= line,
            first <= last + 1 ==> line <= last + 1,
            last < first ==> line == first,
            last == end_addr / 16,
            first == start_addr / 16,
            start_addr > end_addr || (end_addr as int) < memory@.len(),
            header == dump_header(),
            out@ == header + dump_lines(memory@, first as int, (line - first) as nat, start_addr, end_addr),
        decreases last + 1 - line,
    {
        let base: u16 = line * 16;
        let ghost before: Seq<char> = out@;
        push_hex(&mut out, base as u64, 4);
        push_str(&mut out, ":  ");
        push_hex_cells(&mut out, memory, base, 0, start_addr, end_addr);
        push_str(&mut out, " ");
        push_hex_cells(&mut out, memory, base, 8, start_addr, end_addr);
        push_str(&mut out, " ");
        push_text_cells(&mut out, memory, base, start_addr, end_addr);
        push_str(&mut out, "\n");
        proof {
            assert(out@ =~= before + dump_line(memory@, line as int, start_addr, end_addr));
        }
        line = line + 1;
    }
    proof {
        if last < first {
            assert(line == first);
        }
    }
    to_text(&out)
}

/// Tracing only reads the bus: the registers, the program counter and the run state stay
/// as they were.
pub proof fn lemma_trace_keeps_registers(s: CpuState)
    ensures
        ({
            let t: CpuState = trace_line(s).1;
            &&& t.accumulator == s.accumulator
            &&& t.index_x == s.index_x
            &&& t.index_y == s.index_y
            &&& t.stack_pointer == s.stack_pointer
            &&& t.program_counter == s.program_counter
            &&& t.status == s.status
            &&& t.running == s.running
            &&& t.fresh == s.fresh
        }),
{
}

/// In a trace, the memory operand shown for a zero-page instruction at `begin` is the one
/// the instruction accesses, with `b` the operand byte the address is computed from, `a` the
/// operand byte shown and `v` the value shown: zero page `$a = v` at address `b`; zero page,X
/// `$a,X @ e = v` with `e` = `b + X` modulo 256; zero page,Y likewise with Y; an immediate
/// operand shows as `#$a`. An operand at an address whose reads have side effects shows the
/// value 0.
pub proof fn lemma_trace_zero_page(s: CpuState, op: OpCode, begin: u16)
    requires
        begin < 0xFFFE,
        op.mode == AddressingMode::ZeroPage || op.mode == AddressingMode::ZeroPage_X
            || op.mode == AddressingMode::ZeroPage_Y || op.mode == AddressingMode::Immediate,
    ensures
        ({
            let m: (u16, u8, CpuState) = traced_operand(s, op, begin);
            let t: (Seq<char>, u8, CpuState) = traced_text2(m.2, op, begin, m.0, m.1);
            let b: int = s.read((begin + 1) as u16).0 as int;
            let a: u8 = t.1;
            let x: int = s.index_x as int;
            let y: int = s.index_y as int;
            &&& a == m.2.read((begin + 1) as u16).0
            &&& non_readable(m.0) ==> m.1 == 0
            &&& op.mode == AddressingMode::ZeroPage ==> {
                &&& m.0 == b
                &&& t.0 == "$"@ + hex(b as nat, 2) + " = "@ + hex(m.1 as nat, 2)
            }
            &&& op.mode == AddressingMode::ZeroPage_X ==> {
                &&& m.0 == (b + x) % 256
                &&& t.0 == "$"@ + hex(a as nat, 2) + ",X @ "@ + hex(((b + x) % 256) as nat, 2) + " = "@
                    + hex(m.1 as nat, 2)
            }
            &&& op.mode == AddressingMode::ZeroPage_Y ==> {
                &&& m.0 == (b + y) % 256
                &&& t.0 == "$"@ + hex(a as nat, 2) + ",Y @ "@ + hex(((b + y) % 256) as nat, 2) + " = "@
                    + hex(m.1 as nat, 2)
            }
            &&& op.mode == AddressingMode::Immediate ==> t.0 == "#$"@ + hex(a as nat, 2)
        }),
{
    let s0: CpuState = s.fail_unless(begin < 0xFFFF);
    assert(s0 == s);
    if op.mode != AddressingMode::Immediate {
        lemma_operand_zero_page(s, op.mode, (begin + 1) as u16, true);
    }
}

/// In a trace, a (zero page,X) operand shows the pointer and the address accessed, with `b`
/// the operand byte the address is computed from, `a` the operand byte shown and `v` the
/// value shown: `($a,X) @ p = e = v` with the pointer `p` = `a + X` modulo 256 and `e` the
/// zero-page word at `b + X`.
#[verifier::rlimit(40)]
pub proof fn lemma_trace_indexed_indirect(s: CpuState, op: OpCode, begin: u16)
    requires
        begin < 0xFFFE,
        op.mode == AddressingMode::Indirect_X,
    ensures
        ({
            let m: (u16, u8, CpuState) = traced_operand(s, op, begin);
            let t: (Seq<char>, u8, CpuState) = traced_text2(m.2, op, begin, m.0, m.1);
            let r1: (u8, CpuState) = s.read((begin + 1) as u16);
            let b: int = r1.0 as int;
            let a: u8 = t.1;
            let x: int = s.index_x as int;
            let p: int = (b + x) % 256;
            let lo: (u8, CpuState) = r1.1.read(p as u16);
            let hi: (u8, CpuState) = lo.1.read(((p + 1) % 256) as u16);
            &&& non_readable(m.0) ==> m.1 == 0
            &&& m.0 == hi.0 * 256 + lo.0
            &&& t.0 == "($"@ + hex(a as nat, 2) + ",X) @ "@ + hex(((a + x) % 256) as nat, 2) + " = "@
                + hex((hi.0 * 256 + lo.0) as nat, 4) + " = "@ + hex(m.1 as nat, 2)
        }),
{
    let s0: CpuState = s.fail_unless(begin < 0xFFFF);
    assert(s0 == s);
    let addr: u16 = (begin + 1) as u16;
    let m: (u16, u8, CpuState) = traced_operand(s, op, begin);
    let o: (u16, bool, CpuState) = s.operand_in(op.mode, addr, true);
    assert(m.0 == o.0);
    assert(m.2.index_x == s.index_x);
    lemma_operand_indexed_indirect(s, addr);
}

/// In a trace, a (zero page),Y operand shows the word it starts from and the address
/// accessed, with `b` the operand byte the address is computed from, `a` the operand byte
/// shown and `v` the value shown: `($a),Y = w @ e = v` with `w` the zero-page word at `b` and
/// `e` = `w + Y` modulo 65536.
#[verifier::rlimit(40)]
pub proof fn lemma_trace_indirect_indexed(s: CpuState, op: OpCode, begin: u16)
    requires
        begin < 0xFFFE,
        op.mode == AddressingMode::Indirect_Y,
    ensures
        ({
            let m: (u16, u8, CpuState) = traced_operand(s, op, begin);
            let t: (Seq<char>, u8, CpuState) = traced_text2(m.2, op, begin, m.0, m.1);
            let r1: (u8, CpuState) = s.read((begin + 1) as u16);
            let b: int = r1.0 as int;
            let a: u8 = t.1;
            let y: int = s.index_y as int;
            let lo: (u8, CpuState) = r1.1.read(r1.0 as u16);
            let hi: (u8, CpuState) = lo.1.read(((b + 1) % 256) as u16);
            let w: int = hi.0 * 256 + lo.0;
            &&& non_readable(m.0) ==> m.1 == 0
            &&& m.0 == (w + y) % 65536
            &&& t.0 == "($"@ + hex(a as nat, 2) + "),Y = "@ + hex(w as nat, 4) + " @ "@
                + hex(((w + y) % 65536) as nat, 4) + " = "@ + hex(m.1 as nat, 2)
        }),
{
    let s0: CpuState = s.fail_unless(begin < 0xFFFF);
    assert(s0 == s);
    let addr: u16 = (begin + 1) as u16;
    let m: (u16, u8, CpuState) = traced_operand(s, op, begin);
    let o: (u16, bool, CpuState) = s.operand_in(op.mode, addr, true);
    assert(m.0 == o.0);
    assert(m.2.index_y == s.index_y);
    lemma_operand_indirect_indexed(s, addr);
    assert(m.0.wrapping_sub(s.index_y as u16) as int == (m.0 as int - s.index_y as int + 65536) % 65536);
}

/// The three-byte operand texts of a trace show the operand word `w` the instruction's
/// address is computed from and the address it accesses: absolute `$e = v` with `e` = `w`
/// (`$e` alone for JMP and JSR), absolute,X `$w,X @ e = v` with `e` = `w + X` modulo 65536,
/// absolute,Y likewise with Y.
pub proof fn lemma_trace_operand3(s: CpuState, op: OpCode, begin: u16)
    requires
        begin < 0xFFFE,
        mode_len(op.mode) == 3,
    ensures
        ({
            let m: (u16, u8, CpuState) = traced_operand(s, op, begin);
            let t: (Seq<char>, u8, u8, CpuState) = traced_text3(m.2, op, begin, m.0, m.1);
            let w: int = s.read_u16((begin + 1) as u16).0 as int;
            let lo: (u8, CpuState) = m.2.read((begin + 1) as u16);
            let hi: (u8, CpuState) = lo.1.read((begin + 2) as u16);
            let shown: int = hi.1.read_u16((begin + 1) as u16).0 as int;
            let x: int = s.index_x as int;
            let y: int = s.index_y as int;
            &&& non_readable(m.0) ==> m.1 == 0
            &&& op.mode == AddressingMode::Absolute ==> {
                &&& m.0 == w
                &&& (op.byte == 0x4C || op.byte == 0x20) ==> t.0 == "$"@ + hex(w as nat, 4)
                &&& !(op.byte == 0x4C || op.byte == 0x20) ==> t.0 == "$"@ + hex(w as nat, 4) + " = "@ + hex(m.1 as nat, 2)
            }
            &&& op.mode == AddressingMode::Absolute_X ==> {
                &&& m.0 == (w + x) % 65536
                &&& t.0 == "$"@ + hex(shown as nat, 4) + ",X @ "@ + hex(((w + x) % 65536) as nat, 4) + " = "@
                    + hex(m.1 as nat, 2)
            }
            &&& op.mode == AddressingMode::Absolute_Y ==> {
                &&& m.0 == (w + y) % 65536
                &&& t.0 == "$"@ + hex(shown as nat, 4) + ",Y @ "@ + hex(((w + y) % 65536) as nat, 4) + " = "@
                    + hex(m.1 as nat, 2)
            }
        }),
{
    let s0: CpuState = s.fail_unless(begin < 0xFFFF);
    assert(s0 == s);
    let addr: u16 = (begin + 1) as u16;
    if op.mode == AddressingMode::Absolute || op.mode == AddressingMode::Absolute_X
        || op.mode == AddressingMode::Absolute_Y {
        lemma_operand_absolute(s, op.mode, addr, true);
    }
}

} // verus!
