use vstd::prelude::*;

pub mod addr;
pub mod common;
pub mod execute;
pub mod instr;
pub mod laws;
pub mod semantics;
pub mod interrupt;
pub mod opcode;

use crate::bus::{Bus, BusView};
use crate::tools::{hi_byte, lo_byte, same_page, set_bits, word};
use addr::AddressingMode;
use interrupt::{Interrupt, InterruptType};
use opcode::{Instruction, OpCode, decoded, decode_opcode};

verus! {

/// The page the stack lives in.
pub const STACK: u16 = 0x0100;
/// The stack pointer at power-up.
pub const STACK_RESET: u8 = 0xFD;

/// The status register (P).
/// ```plaintext
///  7 6 5 4 3 2 1 0
///  N V _ B D I Z C
///  | |   | | | | +---- Carry
///  | |   | | | +------ Zero
///  | |   | | +-------- Interrupt Disable
///  | |   | +---------- Decimal Mode (not used on NES)
///  | |   +------------ Break
///  | +---------------- Overflow
///  +------------------ Negative
/// ```
#[derive(Clone, Copy, Debug, PartialEq, Eq, Structural)]
pub struct Flags(pub u8);

impl Flags {
    pub const CARRY: u8 = 0b0000_0001;
    pub const ZERO: u8 = 0b0000_0010;
    pub const INTERRUPT_DISABLE: u8 = 0b0000_0100;
    pub const DECIMAL_MODE: u8 = 0b0000_1000;
    pub const BREAK: u8 = 0b0001_0000;
    pub const UNUSED: u8 = 0b0010_0000;
    pub const OVERFLOW: u8 = 0b0100_0000;
    pub const NEGATIVE: u8 = 0b1000_0000;

    /// Every bit is a defined flag, so no bit is dropped.
    pub fn from_bits_truncate(bits: u8) -> (f: Self)
        ensures
            f.0 == bits,
    {
        Flags(bits)
    }

    pub fn bits(&self) -> (bits: u8)
        ensures
            bits == self.0,
    {
        self.0
    }

    pub fn contains(&self, flag: u8) -> (r: bool)
        ensures
            r == (self.0 & flag == flag),
    {
        self.0 & flag == flag
    }

    pub fn insert(&mut self, flag: u8)
        ensures
            final(self).0 == set_bits(old(self).0, flag, true),
    {
        self.0 = self.0 | flag;
    }

    pub fn remove(&mut self, flag: u8)
        ensures
            final(self).0 == set_bits(old(self).0, flag, false),
    {
        self.0 = self.0 & !flag;
    }

    /// Switches `flag` on when `value` holds and off otherwise.
    pub fn set(&mut self, flag: u8, value: bool)
        ensures
            final(self).0 == set_bits(old(self).0, flag, value),
    {
        if value {
            self.insert(flag);
        } else {
            self.remove(flag);
        }
    }
}

/// The 6502 core of the console: registers, status and the bus it drives.
pub struct CPU {
    pub running: bool,
    pub accumulator: u8,
    pub index_x: u8,
    pub index_y: u8,
    pub stack_pointer: u8,
    pub program_counter: u16,
    pub status: Flags,
    pub fresh: bool,
    pub bus: Bus,
}

/// The state of the CPU and its bus; `ok` records that nothing done so far was outside
/// what the hardware model serves (an unserved bus access, a counter that would overflow).
#[verifier::ext_equal]
pub ghost struct CpuState {
    pub running: bool,
    pub accumulator: u8,
    pub index_x: u8,
    pub index_y: u8,
    pub stack_pointer: u8,
    pub program_counter: u16,
    pub status: u8,
    pub fresh: bool,
    pub bus: BusView,
    pub ok: bool,
}

impl View for CPU {
    type V = CpuState;

    open spec fn view(&self) -> CpuState {
        CpuState {
            running: self.running,
            accumulator: self.accumulator,
            index_x: self.index_x,
            index_y: self.index_y,
            stack_pointer: self.stack_pointer,
            program_counter: self.program_counter,
            status: self.status.0,
            fresh: self.fresh,
            bus: self.bus@,
            ok: true,
        }
    }
}

/// An 8-bit branch offset as a 16-bit two's-complement addend.
pub open spec fn sign_extend(b: u8) -> u16 {
    if b >= 128 { (b as u16 + 0xFF00) as u16 } else { b as u16 }
}

/// The interrupt entered by BRK.
pub open spec fn brk_interrupt() -> Interrupt {
    Interrupt { itype: InterruptType::BRK, vector_addr: 0xFFFA, cpu_cycles: 0 }
}

/// The value the status register takes when pulled from the stack: the break bit is
/// dropped and the unused bit set.
pub open spec fn pulled_status(v: u8) -> u8 {
    set_bits(set_bits(v, Flags::BREAK, false), Flags::UNUSED, true)
}

/// The value of the status register pushed by PHP and BRK: break and unused bits set.
pub open spec fn pushed_status(v: u8) -> u8 {
    set_bits(set_bits(v, Flags::BREAK, true), Flags::UNUSED, true)
}

/// Fetching an operand reads the bus only: the registers stay as they were, and once
/// something is unserved it stays so.
pub broadcast proof fn lemma_operand_in_frame(s: CpuState, mode: AddressingMode, addr: u16, zp_wrap: bool)
    ensures
        ({
            let r: CpuState = #[trigger] s.operand_in(mode, addr, zp_wrap).2;
            &&& r.ok ==> s.ok
            &&& r.accumulator == s.accumulator
            &&& r.index_x == s.index_x
            &&& r.index_y == s.index_y
            &&& r.stack_pointer == s.stack_pointer
            &&& r.program_counter == s.program_counter
            &&& r.status == s.status
            &&& r.running == s.running
            &&& r.fresh == s.fresh
        }),
{
    reveal(CpuState::operand_in);
}

impl CpuState {
    pub open spec fn flag(self, mask: u8) -> bool {
        self.status & mask == mask
    }

    pub open spec fn with_flag(self, mask: u8, on: bool) -> CpuState {
        CpuState { status: set_bits(self.status, mask, on), ..self }
    }

    pub open spec fn with_z(self, v: u8) -> CpuState {
        self.with_flag(Flags::ZERO, v == 0)
    }

    pub open spec fn with_n(self, v: u8) -> CpuState {
        self.with_flag(Flags::NEGATIVE, v >> 7u8 == 1)
    }

    pub open spec fn with_zn(self, v: u8) -> CpuState {
        self.with_z(v).with_n(v)
    }

    pub open spec fn with_a(self, v: u8) -> CpuState {
        CpuState { accumulator: v, ..self }.with_zn(v)
    }

    pub open spec fn with_x(self, v: u8) -> CpuState {
        CpuState { index_x: v, ..self }.with_zn(v)
    }

    pub open spec fn with_y(self, v: u8) -> CpuState {
        CpuState { index_y: v, ..self }.with_zn(v)
    }

    pub open spec fn with_pc(self, pc: u16) -> CpuState {
        CpuState { program_counter: pc, ..self }
    }

    pub open spec fn fail_unless(self, cond: bool) -> CpuState {
        CpuState { ok: self.ok && cond, ..self }
    }

    /// A bus read: the value and the state after it.
    pub open spec fn read(self, addr: u16) -> (u8, CpuState) {
        let r: (u8, BusView) = self.bus.read(addr);
        (r.0, CpuState { bus: r.1, ok: self.ok && self.bus.read_ok(addr), ..self })
    }

    pub open spec fn write(self, addr: u16, data: u8) -> CpuState {
        CpuState { bus: self.bus.write(addr, data), ok: self.ok && self.bus.write_ok(addr, data), ..self }
    }

    /// A little-endian word read at `pos`, `pos + 1`.
    pub open spec fn read_u16(self, pos: u16) -> (u16, CpuState) {
        let lo: (u8, CpuState) = self.read(pos);
        let hi: (u8, CpuState) = lo.1.read(pos.wrapping_add(1));
        (word(lo.0, hi.0), hi.1)
    }

    /// `cycles` CPU cycles on the bus.
    pub open spec fn tick(self, cycles: usize) -> CpuState {
        CpuState { bus: self.bus.ticked(cycles), ok: self.ok && self.bus.room_for(cycles as nat), ..self }
    }

    pub open spec fn tick_if(self, cond: bool, cycles: usize) -> CpuState {
        if cond { self.tick(cycles) } else { self }
    }

    /// Pushes a byte: it goes to the stack page at the stack pointer, which then moves down.
    pub open spec fn pushed(self, v: u8) -> CpuState {
        let w: CpuState = self.write((STACK + self.stack_pointer) as u16, v);
        CpuState { stack_pointer: self.stack_pointer.wrapping_sub(1), ..w }
    }

    /// Pops a byte: the stack pointer moves up and the byte it then points at is read.
    pub open spec fn popped(self) -> (u8, CpuState) {
        let sp: u8 = self.stack_pointer.wrapping_add(1);
        CpuState { stack_pointer: sp, ..self }.read((STACK + sp) as u16)
    }

    /// Pushes a word, high byte first.
    pub open spec fn pushed_u16(self, v: u16) -> CpuState {
        self.pushed(hi_byte(v)).pushed(lo_byte(v))
    }

    /// Pops a word, low byte first.
    pub open spec fn popped_u16(self) -> (u16, CpuState) {
        let lo: (u8, CpuState) = self.popped();
        let hi: (u8, CpuState) = lo.1.popped();
        (word(lo.0, hi.0), hi.1)
    }

    /// ADC: the accumulator plus `data` plus the carry; carry out of bit 7, signed overflow
    /// when both addends have a sign the result does not.
    pub open spec fn added(self, data: u8) -> CpuState {
        let c: nat = if self.flag(Flags::CARRY) { 1 } else { 0 };
        let sum: nat = self.accumulator as nat + data as nat + c;
        let result: u8 = (sum % 256) as u8;
        let overflow: bool = (data ^ result) & (result ^ self.accumulator) & 0x80u8 != 0;
        self.with_flag(Flags::CARRY, sum > 255).with_flag(Flags::OVERFLOW, overflow).with_a(result)
    }

    /// SBC: ADC of the one's complement of `data`.
    pub open spec fn subtracted(self, data: u8) -> CpuState {
        self.added(!data)
    }

    /// The operand address for operand bytes at `addr` in `mode`, whether indexing crossed a
    /// page, and the state after the reads. `zp_wrap` makes the pointers of the indexed
    /// indirect modes wrap inside the zero page.
    #[verifier::opaque]
    pub open spec fn operand_in(self, mode: AddressingMode, addr: u16, zp_wrap: bool) -> (u16, bool, CpuState) {
        match mode {
            AddressingMode::ZeroPage => {
                let r: (u8, CpuState) = self.read(addr);
                (r.0 as u16, false, r.1)
            },
            AddressingMode::ZeroPage_X => {
                let r: (u8, CpuState) = self.read(addr);
                (r.0.wrapping_add(self.index_x) as u16, false, r.1)
            },
            AddressingMode::ZeroPage_Y => {
                let r: (u8, CpuState) = self.read(addr);
                (r.0.wrapping_add(self.index_y) as u16, false, r.1)
            },
            AddressingMode::Relative => {
                let r: (u8, CpuState) = self.read(addr);
                let next: u16 = addr.wrapping_add(1);
                let target: u16 = next.wrapping_add(sign_extend(r.0));
                (target, !same_page(next, target), r.1)
            },
            AddressingMode::Absolute => {
                let r: (u16, CpuState) = self.read_u16(addr);
                (r.0, false, r.1)
            },
            AddressingMode::Absolute_X => {
                let r: (u16, CpuState) = self.read_u16(addr);
                let target: u16 = r.0.wrapping_add(self.index_x as u16);
                (target, !same_page(r.0, target), r.1)
            },
            AddressingMode::Absolute_Y => {
                let r: (u16, CpuState) = self.read_u16(addr);
                let target: u16 = r.0.wrapping_add(self.index_y as u16);
                (target, !same_page(r.0, target), r.1)
            },
            AddressingMode::Indirect => {
                let r: (u16, CpuState) = self.read_u16(addr);
                let base: u16 = r.0;
                if base % 256 == 0xFF {
                    let lo: (u8, CpuState) = r.1.read(base);
                    let hi: (u8, CpuState) = lo.1.read((base / 256 * 256) as u16);
                    (word(lo.0, hi.0), false, hi.1)
                } else {
                    let t: (u16, CpuState) = r.1.read_u16(base);
                    (t.0, false, t.1)
                }
            },
            AddressingMode::Indirect_X => {
                let r: (u8, CpuState) = self.read(addr);
                let ptr: u8 = r.0.wrapping_add(self.index_x);
                if zp_wrap {
                    let lo: (u8, CpuState) = r.1.read(ptr as u16);
                    let hi: (u8, CpuState) = lo.1.read(ptr.wrapping_add(1) as u16);
                    (word(lo.0, hi.0), false, hi.1)
                } else {
                    let t: (u16, CpuState) = r.1.read_u16(ptr as u16);
                    (t.0, false, t.1)
                }
            },
            AddressingMode::Indirect_Y => {
                let r: (u8, CpuState) = self.read(addr);
                let base: u8 = r.0;
                let d: (u16, CpuState) = if zp_wrap {
                    let lo: (u8, CpuState) = r.1.read(base as u16);
                    let hi: (u8, CpuState) = lo.1.read(base.wrapping_add(1) as u16);
                    (word(lo.0, hi.0), hi.1)
                } else {
                    r.1.read_u16(base as u16)
                };
                let target: u16 = d.0.wrapping_add(self.index_y as u16);
                (target, !same_page(target, d.0), d.1)
            },
            _ => (0, false, self.fail_unless(false)),
        }
    }

    /// The operand address of the instruction `op` whose operand bytes follow the program
    /// counter (Immediate operands are the bytes themselves).
    pub open spec fn operand(self, op: OpCode) -> (u16, bool, CpuState) {
        self.operand_at(op.mode, true)
    }

    /// The operand address in `mode` for operand bytes that follow the program counter.
    pub open spec fn operand_at(self, mode: AddressingMode, zp_wrap: bool) -> (u16, bool, CpuState) {
        if mode is Immediate {
            (self.program_counter, false, self)
        } else {
            self.operand_in(mode, self.program_counter, zp_wrap)
        }
    }

    /// The value of the operand of `op`, the page crossing and the state after reading it.
    pub open spec fn fetched(self, op: OpCode) -> (u8, bool, CpuState) {
        let o: (u16, bool, CpuState) = self.operand(op);
        let r: (u8, CpuState) = o.2.read(o.0);
        (r.0, o.1, r.1)
    }

    /// CMP/CPX/CPY: compares `with` to the operand.
    pub open spec fn compared(self, op: OpCode, with: u8) -> CpuState {
        let f: (u8, bool, CpuState) = self.fetched(op);
        f.2.with_flag(Flags::CARRY, f.0 <= with).with_zn(with.wrapping_sub(f.0)).tick_if(f.1, 1)
    }

    /// A conditional branch: when taken, one cycle, one more when crossing a page, and the
    /// program counter moves to the target.
    pub open spec fn branched(self, op: OpCode, condition: bool) -> CpuState {
        if condition {
            let s1: CpuState = self.tick(1);
            let o: (u16, bool, CpuState) = s1.operand(op);
            o.2.tick_if(o.1, 1).with_pc(o.0)
        } else {
            self
        }
    }

    /// Entering `interrupt`: the program counter and status (with break set only for BRK)
    /// are pushed, interrupts are disabled, the entry cycles pass and the vector is loaded.
    pub open spec fn interrupted(self, interrupt: Interrupt) -> CpuState {
        let s1: CpuState = self.pushed_u16(self.program_counter);
        let flags: u8 = set_bits(set_bits(s1.status, Flags::BREAK, interrupt == brk_interrupt()), Flags::UNUSED, true);
        let s2: CpuState = s1.pushed(flags).with_flag(Flags::INTERRUPT_DISABLE, true).tick(interrupt.cpu_cycles);
        let v: (u16, CpuState) = s2.read_u16(interrupt.vector_addr);
        v.1.with_pc(v.0)
    }

    /// A read-modify-write of the operand of `op`: the value read, the operand address and
    /// the state after the read.
    pub open spec fn rmw_read(self, op: OpCode) -> (u8, u16, CpuState) {
        let o: (u16, bool, CpuState) = self.operand(op);
        let r: (u8, CpuState) = o.2.read(o.0);
        (r.0, o.0, r.1)
    }

    pub open spec fn carry_bit(self) -> u8 {
        if self.flag(Flags::CARRY) { 1 } else { 0 }
    }

    pub open spec fn lda(self, op: OpCode) -> CpuState {
        let f = self.fetched(op); f.2.with_a(f.0).tick_if(f.1, 1)
    }

    pub open spec fn ldx(self, op: OpCode) -> CpuState {
        let f = self.fetched(op); f.2.with_x(f.0).tick_if(f.1, 1)
    }

    pub open spec fn ldy(self, op: OpCode) -> CpuState {
        let f = self.fetched(op); f.2.with_y(f.0).tick_if(f.1, 1)
    }

    pub open spec fn sta(self, op: OpCode) -> CpuState {
        let a: u8 = self.accumulator;
        let o = self.operand(op); o.2.write(o.0, a)
    }

    pub open spec fn stx(self, op: OpCode) -> CpuState {
        let x: u8 = self.index_x;
        let o = self.operand(op); o.2.write(o.0, x)
    }

    pub open spec fn sty(self, op: OpCode) -> CpuState {
        let y: u8 = self.index_y;
        let o = self.operand(op); o.2.write(o.0, y)
    }

    pub open spec fn tax(self, op: OpCode) -> CpuState {
        let a: u8 = self.accumulator;
        self.with_x(a)
    }

    pub open spec fn tay(self, op: OpCode) -> CpuState {
        let a: u8 = self.accumulator;
        self.with_y(a)
    }

    pub open spec fn txa(self, op: OpCode) -> CpuState {
        let x: u8 = self.index_x;
        self.with_a(x)
    }

    pub open spec fn tya(self, op: OpCode) -> CpuState {
        let y: u8 = self.index_y;
        self.with_a(y)
    }

    pub open spec fn tsx(self, op: OpCode) -> CpuState {
        self.with_x(self.stack_pointer)
    }

    pub open spec fn txs(self, op: OpCode) -> CpuState {
        let x: u8 = self.index_x;
        CpuState { stack_pointer: x, ..self }
    }

    pub open spec fn pha(self, op: OpCode) -> CpuState {
        let a: u8 = self.accumulator;
        self.pushed(a)
    }

    pub open spec fn php(self, op: OpCode) -> CpuState {
        self.pushed(pushed_status(self.status))
    }

    pub open spec fn pla(self, op: OpCode) -> CpuState {
        let p = self.popped(); p.1.with_a(p.0)
    }

    pub open spec fn plp(self, op: OpCode) -> CpuState {
        let p = self.popped(); CpuState { status: pulled_status(p.0), ..p.1 }
    }

    pub open spec fn and(self, op: OpCode) -> CpuState {
        let a: u8 = self.accumulator;
        let f = self.fetched(op); f.2.with_a(f.0 & a).tick_if(f.1, 1)
    }

    pub open spec fn eor(self, op: OpCode) -> CpuState {
        let a: u8 = self.accumulator;
        let f = self.fetched(op); f.2.with_a(f.0 ^ a).tick_if(f.1, 1)
    }

    pub open spec fn ora(self, op: OpCode) -> CpuState {
        let a: u8 = self.accumulator;
        let f = self.fetched(op); f.2.with_a(f.0 | a).tick_if(f.1, 1)
    }

    pub open spec fn bit(self, op: OpCode) -> CpuState {
        let a: u8 = self.accumulator;
        let f = self.fetched(op);
                f.2.with_z(a & f.0).with_flag(Flags::NEGATIVE, f.0 & 0x80u8 > 0).with_flag(Flags::OVERFLOW, f.0 & 0x40u8 > 0)
    }

    pub open spec fn adc(self, op: OpCode) -> CpuState {
        let f = self.fetched(op); f.2.added(f.0).tick_if(f.1, 1)
    }

    pub open spec fn sbc(self, op: OpCode) -> CpuState {
        let f = self.fetched(op); f.2.subtracted(f.0).tick_if(f.1, 1)
    }

    pub open spec fn cmp(self, op: OpCode) -> CpuState {
        let a: u8 = self.accumulator;
        self.compared(op, a)
    }

    pub open spec fn cpx(self, op: OpCode) -> CpuState {
        let x: u8 = self.index_x;
        self.compared(op, x)
    }

    pub open spec fn cpy(self, op: OpCode) -> CpuState {
        let y: u8 = self.index_y;
        self.compared(op, y)
    }

    pub open spec fn inc(self, op: OpCode) -> CpuState {
        let r = self.rmw_read(op); let d = r.0.wrapping_add(1); r.2.write(r.1, d).with_zn(d)
    }

    pub open spec fn inx(self, op: OpCode) -> CpuState {
        let x: u8 = self.index_x;
        self.with_x(x.wrapping_add(1))
    }

    pub open spec fn iny(self, op: OpCode) -> CpuState {
        let y: u8 = self.index_y;
        self.with_y(y.wrapping_add(1))
    }

    pub open spec fn dec(self, op: OpCode) -> CpuState {
        let r = self.rmw_read(op); let d = r.0.wrapping_sub(1); r.2.write(r.1, d).with_zn(d)
    }

    pub open spec fn dex(self, op: OpCode) -> CpuState {
        let x: u8 = self.index_x;
        self.with_x(x.wrapping_sub(1))
    }

    pub open spec fn dey(self, op: OpCode) -> CpuState {
        let y: u8 = self.index_y;
        self.with_y(y.wrapping_sub(1))
    }

    pub open spec fn asl(self, op: OpCode) -> CpuState {
        let a: u8 = self.accumulator;
        if op.mode is Accumulator {
                    self.with_flag(Flags::CARRY, a >> 7u8 == 1).with_a(a << 1u8)
                } else {
                    let r = self.rmw_read(op);
                    let d: u8 = r.0 << 1u8;
                    r.2.with_flag(Flags::CARRY, r.0 >> 7u8 == 1).write(r.1, d).with_zn(d)
                }
    }

    pub open spec fn lsr(self, op: OpCode) -> CpuState {
        let a: u8 = self.accumulator;
        if op.mode is Accumulator {
                    self.with_flag(Flags::CARRY, a & 1u8 == 1).with_a(a >> 1u8)
                } else {
                    let r = self.rmw_read(op);
                    let d: u8 = r.0 >> 1u8;
                    r.2.with_flag(Flags::CARRY, r.0 & 1u8 == 1).write(r.1, d).with_zn(d)
                }
    }

    pub open spec fn rol(self, op: OpCode) -> CpuState {
        let a: u8 = self.accumulator;
        if op.mode is Accumulator {
                    self.with_flag(Flags::CARRY, a >> 7u8 == 1).with_a((a << 1u8) | self.carry_bit())
                } else {
                    let r = self.rmw_read(op);
                    let d: u8 = (r.0 << 1u8) | r.2.carry_bit();
                    r.2.with_flag(Flags::CARRY, r.0 >> 7u8 == 1).write(r.1, d).with_n(d)
                }
    }

    pub open spec fn ror(self, op: OpCode) -> CpuState {
        let a: u8 = self.accumulator;
        if op.mode is Accumulator {
                    self.with_flag(Flags::CARRY, a & 1u8 == 1).with_a((a >> 1u8) | (self.carry_bit() << 7u8))
                } else {
                    let r = self.rmw_read(op);
                    let d: u8 = (r.0 >> 1u8) | (r.2.carry_bit() << 7u8);
                    r.2.with_flag(Flags::CARRY, r.0 & 1u8 == 1).write(r.1, d).with_n(d)
                }
    }

    pub open spec fn jmp(self, op: OpCode) -> CpuState {
        let o = self.operand(op); o.2.with_pc(o.0)
    }

    pub open spec fn jsr(self, op: OpCode) -> CpuState {
        let o = self.operand(op);
                o.2.fail_unless(o.2.program_counter < 0xFFFF).pushed_u16((o.2.program_counter + 1) as u16).with_pc(o.0)
    }

    pub open spec fn rts(self, op: OpCode) -> CpuState {
        let p = self.popped_u16(); p.1.fail_unless(p.0 < 0xFFFF).with_pc((p.0 + 1) as u16)
    }

    pub open spec fn bcc(self, op: OpCode) -> CpuState {
        self.branched(op, !self.flag(Flags::CARRY))
    }

    pub open spec fn bcs(self, op: OpCode) -> CpuState {
        self.branched(op, self.flag(Flags::CARRY))
    }

    pub open spec fn beq(self, op: OpCode) -> CpuState {
        self.branched(op, self.flag(Flags::ZERO))
    }

    pub open spec fn bmi(self, op: OpCode) -> CpuState {
        self.branched(op, self.flag(Flags::NEGATIVE))
    }

    pub open spec fn bne(self, op: OpCode) -> CpuState {
        self.branched(op, !self.flag(Flags::ZERO))
    }

    pub open spec fn bpl(self, op: OpCode) -> CpuState {
        self.branched(op, !self.flag(Flags::NEGATIVE))
    }

    pub open spec fn bvc(self, op: OpCode) -> CpuState {
        self.branched(op, !self.flag(Flags::OVERFLOW))
    }

    pub open spec fn bvs(self, op: OpCode) -> CpuState {
        self.branched(op, self.flag(Flags::OVERFLOW))
    }

    pub open spec fn clc(self, op: OpCode) -> CpuState {
        self.with_flag(Flags::CARRY, false)
    }

    pub open spec fn cld(self, op: OpCode) -> CpuState {
        self.with_flag(Flags::DECIMAL_MODE, false)
    }

    pub open spec fn cli(self, op: OpCode) -> CpuState {
        self.with_flag(Flags::INTERRUPT_DISABLE, false)
    }

    pub open spec fn clv(self, op: OpCode) -> CpuState {
        self.with_flag(Flags::OVERFLOW, false)
    }

    pub open spec fn sec(self, op: OpCode) -> CpuState {
        self.with_flag(Flags::CARRY, true)
    }

    pub open spec fn sed(self, op: OpCode) -> CpuState {
        self.with_flag(Flags::DECIMAL_MODE, true)
    }

    pub open spec fn sei(self, op: OpCode) -> CpuState {
        self.with_flag(Flags::INTERRUPT_DISABLE, true)
    }

    pub open spec fn brk(self, op: OpCode) -> CpuState {
        if !self.flag(Flags::INTERRUPT_DISABLE) { self.interrupted(brk_interrupt()) } else { self }
    }

    pub open spec fn nop(self, op: OpCode) -> CpuState {
        self
    }

    pub open spec fn rti(self, op: OpCode) -> CpuState {
        let p = self.popped();
                let s1: CpuState = CpuState { status: pulled_status(p.0), ..p.1 };
                let w = s1.popped_u16();
                w.1.with_pc(w.0)
    }

    pub open spec fn nop_alt(self, op: OpCode) -> CpuState {
        if op.mode is Implicit {
                    self
                } else {
                    let f = self.fetched(op);
                    f.2.tick_if(f.1, 1)
                }
    }

    pub open spec fn slo(self, op: OpCode) -> CpuState {
        let r = self.rmw_read(op);
                let d: u8 = r.0 << 1u8;
                let s1 = r.2.with_flag(Flags::CARRY, r.0 >> 7u8 == 1).write(r.1, d).with_zn(d);
                s1.with_a(d | s1.accumulator)
    }

    pub open spec fn rla(self, op: OpCode) -> CpuState {
        let r = self.rmw_read(op);
                let d: u8 = (r.0 << 1u8) | r.2.carry_bit();
                let s1 = r.2.with_flag(Flags::CARRY, r.0 >> 7u8 == 1).write(r.1, d).with_n(d);
                s1.with_a(d & s1.accumulator)
    }

    pub open spec fn sre(self, op: OpCode) -> CpuState {
        let r = self.rmw_read(op);
                let d: u8 = r.0 >> 1u8;
                let s1 = r.2.with_flag(Flags::CARRY, r.0 & 1u8 == 1).write(r.1, d).with_zn(d);
                s1.with_a(d ^ s1.accumulator)
    }

    pub open spec fn rra(self, op: OpCode) -> CpuState {
        let r = self.rmw_read(op);
                let d: u8 = (r.0 >> 1u8) | (r.2.carry_bit() << 7u8);
                r.2.with_flag(Flags::CARRY, r.0 & 1u8 == 1).write(r.1, d).with_n(d).added(d)
    }

    pub open spec fn sax(self, op: OpCode) -> CpuState {
        let a: u8 = self.accumulator;
        let x: u8 = self.index_x;
        let o = self.operand(op); o.2.write(o.0, a & x)
    }

    pub open spec fn lax(self, op: OpCode) -> CpuState {
        let f = self.fetched(op);
                CpuState { index_x: f.0, ..f.2.with_a(f.0) }.tick_if(f.1, 1)
    }

    pub open spec fn dcp(self, op: OpCode) -> CpuState {
        let a: u8 = self.accumulator;
        let r = self.rmw_read(op);
                let d: u8 = r.0.wrapping_sub(1);
                r.2.write(r.1, d).with_flag(Flags::CARRY, d <= a).with_zn(a.wrapping_sub(d))
    }

    pub open spec fn isc(self, op: OpCode) -> CpuState {
        let r = self.rmw_read(op);
                let d: u8 = r.0.wrapping_add(1);
                r.2.write(r.1, d).with_zn(d).subtracted(d)
    }

    pub open spec fn anc(self, op: OpCode) -> CpuState {
        let a: u8 = self.accumulator;
        let f = self.fetched(op);
                let s1 = f.2.with_a(f.0 & a);
                s1.with_flag(Flags::CARRY, s1.flag(Flags::NEGATIVE))
    }

    pub open spec fn alr(self, op: OpCode) -> CpuState {
        let a: u8 = self.accumulator;
        let f = self.fetched(op);
                let d: u8 = f.0 & a;
                f.2.with_flag(Flags::CARRY, d & 1u8 == 1).with_a(d >> 1u8)
    }

    pub open spec fn arr(self, op: OpCode) -> CpuState {
        let a: u8 = self.accumulator;
        let f = self.fetched(op);
                let d0: u8 = f.0 & a;
                let d: u8 = (d0 >> 1u8) | (f.2.carry_bit() << 7u8);
                let s1 = f.2.with_flag(Flags::CARRY, d0 & 1u8 == 1).with_a(d);
                let bit_5: u8 = (d >> 5u8) & 1u8;
                let bit_6: u8 = (d >> 6u8) & 1u8;
                s1.with_flag(Flags::CARRY, bit_6 == 1).with_flag(Flags::OVERFLOW, bit_5 ^ bit_6 == 1)
    }

    pub open spec fn xaa(self, op: OpCode) -> CpuState {
        let x: u8 = self.index_x;
        let f = self.fetched(op); f.2.with_a(f.0 & x)
    }

    pub open spec fn axs(self, op: OpCode) -> CpuState {
        let a: u8 = self.accumulator;
        let x: u8 = self.index_x;
        let f = self.fetched(op);
                let r: u8 = (x & a).wrapping_sub(f.0);
                CpuState { index_x: r, ..f.2.with_flag(Flags::CARRY, f.0 <= x & a).with_zn(r) }
    }

    pub open spec fn sbc_nop(self, op: OpCode) -> CpuState {
        let f = self.fetched(op); f.2.subtracted(f.0)
    }

    pub open spec fn ahx(self, op: OpCode) -> CpuState {
        let a: u8 = self.accumulator;
        let x: u8 = self.index_x;
        let o = self.operand(op); o.2.write(o.0, a & x & hi_byte(o.0))
    }

    pub open spec fn shy(self, op: OpCode) -> CpuState {
        let y: u8 = self.index_y;
        let o = self.operand(op);
                o.2.fail_unless(hi_byte(o.0) < 255).write(o.0, y & ((hi_byte(o.0) + 1) as u8))
    }

    pub open spec fn shx(self, op: OpCode) -> CpuState {
        let x: u8 = self.index_x;
        let o = self.operand(op);
                o.2.fail_unless(hi_byte(o.0) < 255).write(o.0, x & ((hi_byte(o.0) + 1) as u8))
    }

    pub open spec fn tas(self, op: OpCode) -> CpuState {
        let a: u8 = self.accumulator;
        let x: u8 = self.index_x;
        let s1: CpuState = CpuState { stack_pointer: a & x, ..self };
                let o = s1.operand(op);
                o.2.fail_unless(hi_byte(o.0) < 255).write(o.0, ((hi_byte(o.0) + 1) as u8) & (a & x))
    }

    pub open spec fn las(self, op: OpCode) -> CpuState {
        let f = self.fetched(op);
                let d: u8 = f.0 & self.stack_pointer;
                CpuState { accumulator: d, index_x: d, stack_pointer: d, ..f.2 }.with_zn(d)
    }

    pub open spec fn kil(self, op: OpCode) -> CpuState {
        CpuState { running: false, ..self }
    }

    /// A reset: the stack pointer moves down three, interrupts are disabled, the reset
    /// vector at $FFFC is loaded and seven cycles pass.
    pub open spec fn reset_state(self) -> CpuState {
        let s1: CpuState = CpuState { stack_pointer: (self.stack_pointer - 3) as u8, ..self }
            .fail_unless(self.stack_pointer >= 3)
            .with_flag(Flags::UNUSED, true)
            .with_flag(Flags::INTERRUPT_DISABLE, true);
        let r: (u16, CpuState) = s1.read_u16(0xFFFC);
        CpuState { program_counter: r.0, fresh: false, ..r.1 }.tick(7)
    }

    /// Starting to run: the CPU runs, and on its first start the seven power-up cycles pass.
    pub open spec fn started(self) -> CpuState {
        let s1: CpuState = CpuState { running: true, ..self };
        if self.fresh { CpuState { fresh: false, ..s1.tick(7) } } else { s1 }
    }

    /// Taking a pending interrupt before an instruction: when the PPU raised its NMI, the NMI
    /// is taken (and entered).
    pub open spec fn interrupts_polled(self) -> CpuState {
        let polled: CpuState = CpuState {
            bus: BusView {
                mapper: crate::mapper::mapper000::MapperView {
                    ppu: crate::ppu::PpuView { nmi_interrupt: None, ..self.bus.mapper.ppu },
                    ..self.bus.mapper
                },
                ..self.bus
            },
            ..self
        };
        if self.bus.mapper.ppu.nmi_interrupt.is_some() {
            polled.interrupted(Interrupt { itype: InterruptType::NMI, vector_addr: 0xFFFA, cpu_cycles: 2 })
        } else {
            polled
        }
    }

    /// One instruction: the opcode byte at the program counter is fetched and executed, its
    /// cycles pass, and unless it jumped the program counter moves past its operand bytes.
    pub open spec fn stepped(self) -> CpuState {
        let r: (u8, CpuState) = self.read(self.program_counter);
        let s1: CpuState = r.1.fail_unless(self.program_counter < 0xFFFF).with_pc((self.program_counter + 1) as u16);
        let op: OpCode = decoded(r.0);
        let s2: CpuState = s1.executed(op).tick(op.cycles);
        if !s1.ok {
            s1
        } else if s2.program_counter == s1.program_counter {
            s2.fail_unless(s2.program_counter + op.len <= 0xFFFF).with_pc((s2.program_counter + op.len - 1) as u16)
        } else {
            s2
        }
    }

    /// What executing `op` (its opcode byte already consumed) does.
    #[verifier::opaque]
    pub open spec fn executed(self, op: OpCode) -> CpuState {
        match op.instruction {
            Instruction::LDA => self.lda(op),
            Instruction::LDX => self.ldx(op),
            Instruction::LDY => self.ldy(op),
            Instruction::STA => self.sta(op),
            Instruction::STX => self.stx(op),
            Instruction::STY => self.sty(op),
            Instruction::TAX => self.tax(op),
            Instruction::TAY => self.tay(op),
            Instruction::TXA => self.txa(op),
            Instruction::TYA => self.tya(op),
            Instruction::TSX => self.tsx(op),
            Instruction::TXS => self.txs(op),
            Instruction::PHA => self.pha(op),
            Instruction::PHP => self.php(op),
            Instruction::PLA => self.pla(op),
            Instruction::PLP => self.plp(op),
            Instruction::AND => self.and(op),
            Instruction::EOR => self.eor(op),
            Instruction::ORA => self.ora(op),
            Instruction::BIT => self.bit(op),
            Instruction::ADC => self.adc(op),
            Instruction::SBC => self.sbc(op),
            Instruction::CMP => self.cmp(op),
            Instruction::CPX => self.cpx(op),
            Instruction::CPY => self.cpy(op),
            Instruction::INC => self.inc(op),
            Instruction::INX => self.inx(op),
            Instruction::INY => self.iny(op),
            Instruction::DEC => self.dec(op),
            Instruction::DEX => self.dex(op),
            Instruction::DEY => self.dey(op),
            Instruction::ASL => self.asl(op),
            Instruction::LSR => self.lsr(op),
            Instruction::ROL => self.rol(op),
            Instruction::ROR => self.ror(op),
            Instruction::JMP => self.jmp(op),
            Instruction::JSR => self.jsr(op),
            Instruction::RTS => self.rts(op),
            Instruction::BCC => self.bcc(op),
            Instruction::BCS => self.bcs(op),
            Instruction::BEQ => self.beq(op),
            Instruction::BMI => self.bmi(op),
            Instruction::BNE => self.bne(op),
            Instruction::BPL => self.bpl(op),
            Instruction::BVC => self.bvc(op),
            Instruction::BVS => self.bvs(op),
            Instruction::CLC => self.clc(op),
            Instruction::CLD => self.cld(op),
            Instruction::CLI => self.cli(op),
            Instruction::CLV => self.clv(op),
            Instruction::SEC => self.sec(op),
            Instruction::SED => self.sed(op),
            Instruction::SEI => self.sei(op),
            Instruction::BRK => self.brk(op),
            Instruction::NOP => self.nop(op),
            Instruction::RTI => self.rti(op),
            Instruction::NOP_ALT => self.nop_alt(op),
            Instruction::SLO => self.slo(op),
            Instruction::RLA => self.rla(op),
            Instruction::SRE => self.sre(op),
            Instruction::RRA => self.rra(op),
            Instruction::SAX => self.sax(op),
            Instruction::LAX => self.lax(op),
            Instruction::DCP => self.dcp(op),
            Instruction::ISC => self.isc(op),
            Instruction::ANC => self.anc(op),
            Instruction::ALR => self.alr(op),
            Instruction::ARR => self.arr(op),
            Instruction::XAA => self.xaa(op),
            Instruction::AXS => self.axs(op),
            Instruction::SBC_NOP => self.sbc_nop(op),
            Instruction::AHX => self.ahx(op),
            Instruction::SHY => self.shy(op),
            Instruction::SHX => self.shx(op),
            Instruction::TAS => self.tas(op),
            Instruction::LAS => self.las(op),
            Instruction::KIL => self.kil(op),
        }
    }
}


impl CPU {
    /// A bus read by the CPU.
    pub fn bus_read(&mut self, addr: u16) -> (data: u8)
        requires
            old(self)@.read(addr).1.ok,
            old(self)@.bus.wf(),
        ensures
            (data, final(self)@) == old(self)@.read(addr),
            final(self)@.bus.wf(),
    {
        self.bus.read(addr)
    }

    /// A little-endian word read by the CPU.
    pub fn bus_read_u16(&mut self, pos: u16) -> (value: u16)
        requires
            old(self)@.read_u16(pos).1.ok,
            old(self)@.bus.wf(),
        ensures
            (value, final(self)@) == old(self)@.read_u16(pos),
            final(self)@.bus.wf(),
    {
        self.bus.read_u16(pos)
    }

    /// A bus write by the CPU.
    pub fn bus_write(&mut self, addr: u16, data: u8)
        requires
            old(self)@.write(addr, data).ok,
            old(self)@.bus.wf(),
        ensures
            final(self)@ == old(self)@.write(addr, data),
            final(self)@.bus.wf(),
    {
        self.bus.write(addr, data)
    }

    /// `cycles` CPU cycles pass on the bus.
    pub fn bus_tick(&mut self, cycles: usize)
        requires
            old(self)@.tick(cycles).ok,
            old(self)@.bus.wf(),
        ensures
            final(self)@ == old(self)@.tick(cycles),
            final(self)@.bus.wf(),
    {
        self.bus.tick(cycles)
    }

    /// The operand address for operand bytes at `addr` in `mode` (see `CpuState::operand_in`).
    pub fn absolute_address(&mut self, mode: AddressingMode, addr: u16, zp_wrap: bool) -> (result: (u16, bool))
        requires
            old(self)@.operand_in(mode, addr, zp_wrap).2.ok,
            old(self)@.bus.wf(),
        ensures
            ({
                let r: (u16, bool, CpuState) = old(self)@.operand_in(mode, addr, zp_wrap);
                result == (r.0, r.1) && final(self)@ == r.2
            }),
            final(self)@.bus.wf(),
    {
        reveal(CpuState::operand_in);
        match mode {
            AddressingMode::ZeroPage => (self.bus_read(addr) as u16, false),
            AddressingMode::ZeroPage_X => {
                let pos: u8 = self.bus_read(addr);
                (pos.wrapping_add(self.index_x) as u16, false)
            },
            AddressingMode::ZeroPage_Y => {
                let pos: u8 = self.bus_read(addr);
                (pos.wrapping_add(self.index_y) as u16, false)
            },
            AddressingMode::Relative => {
                let offset: u8 = self.bus_read(addr);
                let jump: i8 = offset as i8;
                let extended: u16 = jump as u16;
                assert(extended == sign_extend(offset)) by (bit_vector)
                    requires
                        jump == offset as i8,
                        extended == jump as u16,
                ;
                let next: u16 = addr.wrapping_add(1);
                let jump_addr: u16 = next.wrapping_add(extended);
                (jump_addr, crate::tools::page_cross(next, jump_addr))
            },
            AddressingMode::Absolute => (self.bus_read_u16(addr), false),
            AddressingMode::Absolute_X => {
                let base: u16 = self.bus_read_u16(addr);
                let target: u16 = base.wrapping_add(self.index_x as u16);
                (target, crate::tools::page_cross(base, target))
            },
            AddressingMode::Absolute_Y => {
                let base: u16 = self.bus_read_u16(addr);
                let target: u16 = base.wrapping_add(self.index_y as u16);
                (target, crate::tools::page_cross(base, target))
            },
            AddressingMode::Indirect => {
                // JMP ($xxyy) does not advance pages: when the low byte of the pointer is $FF
                // the high byte is fetched from $xx00 instead of the following byte.
                let base: u16 = self.bus_read_u16(addr);
                let target: u16 = if base & 0x00FF == 0x00FF {
                    assert(base & 0x00FF == base % 256 && base & 0xFF00 == base / 256 * 256) by (bit_vector);
                    let lo: u8 = self.bus_read(base);
                    let hi: u8 = self.bus_read(base & 0xFF00);
                    crate::tools::bytes_to_u16(&[lo, hi])
                } else {
                    assert(base & 0x00FF == base % 256) by (bit_vector);
                    self.bus_read_u16(base)
                };
                (target, false)
            },
            AddressingMode::Indirect_X => {
                let base: u8 = self.bus_read(addr);
                let ptr: u8 = base.wrapping_add(self.index_x);
                if zp_wrap {
                    let lo: u8 = self.bus_read(ptr as u16);
                    let hi: u8 = self.bus_read(ptr.wrapping_add(1) as u16);
                    (crate::tools::bytes_to_u16(&[lo, hi]), false)
                } else {
                    (self.bus_read_u16(ptr as u16), false)
                }
            },
            AddressingMode::Indirect_Y => {
                let base: u8 = self.bus_read(addr);
                let deref_base: u16 = if zp_wrap {
                    let lo: u8 = self.bus_read(base as u16);
                    let hi: u8 = self.bus_read(base.wrapping_add(1) as u16);
                    crate::tools::bytes_to_u16(&[lo, hi])
                } else {
                    self.bus_read_u16(base as u16)
                };
                let deref: u16 = deref_base.wrapping_add(self.index_y as u16);
                (deref, crate::tools::page_cross(deref, deref_base))
            },
            _ => {
                assert(false);
                (0, false)
            },
        }
    }
}

impl CPU {
    /// A CPU on `bus` at power-up: registers clear, stack pointer $FD, interrupts disabled,
    /// and the program counter loaded from the reset vector at $FFFC.
    pub fn new(bus: Bus) -> (cpu: Self)
        requires
            bus@.read_u16_ok(0xFFFC),
        ensures
            ({
                let r: (u16, BusView) = bus@.read_u16(0xFFFC);
                cpu@ == (CpuState {
                    running: false,
                    accumulator: 0,
                    index_x: 0,
                    index_y: 0,
                    stack_pointer: STACK_RESET,
                    program_counter: r.0,
                    status: 0b0010_0100,
                    fresh: true,
                    bus: r.1,
                    ok: true,
                })
            }),
            bus@.wf() ==> cpu@.bus.wf(),
    {
        let mut bus = bus;
        let pc: u16 = bus.read_u16(0xFFFC);
        CPU {
            running: false,
            accumulator: 0x00,
            index_x: 0x00,
            index_y: 0x00,
            stack_pointer: STACK_RESET,
            program_counter: pc,
            status: Flags::from_bits_truncate(0b0010_0100),
            fresh: true,
            bus,
        }
    }

    /// A reset (see `CpuState::reset_state`).
    pub fn reset(&mut self)
        requires
            old(self)@.reset_state().ok,
            old(self)@.bus.wf(),
        ensures
            final(self)@ == old(self)@.reset_state(),
            final(self)@.bus.wf(),
    {
        self.stack_pointer = self.stack_pointer - 3;
        self.status.insert(Flags::UNUSED);
        self.status.insert(Flags::INTERRUPT_DISABLE);
        let pc: u16 = self.bus_read_u16(0xFFFC);
        self.program_counter = pc;
        self.fresh = false;
        self.bus_tick(7);
    }

    /// Starts the CPU (see `CpuState::started`).
    pub fn start(&mut self)
        requires
            old(self)@.started().ok,
            old(self)@.bus.wf(),
        ensures
            final(self)@ == old(self)@.started(),
            final(self)@.bus.wf(),
    {
        self.running = true;
        if self.fresh {
            self.bus_tick(7);
            self.fresh = false;
        }
    }

    /// Takes a pending interrupt (see `CpuState::interrupts_polled`).
    pub fn pre_step(&mut self)
        requires
            old(self)@.interrupts_polled().ok,
            old(self)@.bus.wf(),
        ensures
            final(self)@ == old(self)@.interrupts_polled(),
            final(self)@.bus.wf(),
    {
        let pending_interrupt: Option<Interrupt> = self.bus.poll_interrupts();
        if let Some(interrupt) = pending_interrupt {
            self.interrupt(interrupt);
        }
    }

    /// Fetches, executes and times one instruction (see `CpuState::stepped`).
    pub fn step(&mut self)
        requires
            old(self)@.stepped().ok,
            old(self)@.bus.wf(),
        ensures
            final(self)@ == old(self)@.stepped(),
            final(self)@.bus.wf(),
    {
        let pc: u16 = self.program_counter;
        let opbyte: u8 = self.bus_read(pc);
        self.program_counter = self.program_counter + 1;
        let program_counter_state: u16 = self.program_counter;
        let opcode: OpCode = decode_opcode(opbyte);
        self.execute_instruction(&opcode);
        self.bus_tick(opcode.cycles);
        if program_counter_state == self.program_counter {
            self.program_counter = self.program_counter + opcode.len as u16 - 1;
        }
    }
}

} // verus!
