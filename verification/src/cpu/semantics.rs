use vstd::prelude::*;

use super::addr::AddressingMode;
use super::laws::lemma_operand_relative;
use super::laws::signed;
use super::opcode::OpCode;
use super::{CpuState, Flags};
use crate::tools::bits::{lemma_byte_fields, lemma_set_flag, lemma_shift_bits};

verus! {

broadcast use super::lemma_operand_in_frame;

/// The eight flag bits of the status register.
pub open spec fn flag_bit(q: u8) -> bool {
    q == 1 || q == 2 || q == 4 || q == 8 || q == 16 || q == 32 || q == 64 || q == 128
}

/// Setting or clearing one flag leaves the other flags as they were.
pub proof fn lemma_with_flag(s: CpuState, m: u8, on: bool)
    requires
        flag_bit(m),
    ensures
        forall|q: u8| flag_bit(q) ==> #[trigger] s.with_flag(m, on).flag(q) == if q == m { on } else { s.flag(q) },
{
    assert forall|q: u8| flag_bit(q) implies #[trigger] s.with_flag(m, on).flag(q) == if q == m { on } else { s.flag(q) } by {
        lemma_set_flag(s.status, m, on, q);
    }
}

/// The zero and negative flags follow a result: zero exactly when it is 0, negative exactly
/// when its bit 7 is set; the other flags stay.
pub proof fn lemma_with_zn(s: CpuState, v: u8)
    ensures
        s.with_zn(v).flag(Flags::ZERO) == (v == 0),
        s.with_zn(v).flag(Flags::NEGATIVE) == (v >= 128),
        s.with_zn(v).flag(Flags::CARRY) == s.flag(Flags::CARRY),
        s.with_zn(v).flag(Flags::OVERFLOW) == s.flag(Flags::OVERFLOW),
        s.with_zn(v).flag(Flags::INTERRUPT_DISABLE) == s.flag(Flags::INTERRUPT_DISABLE),
        s.with_zn(v).flag(Flags::DECIMAL_MODE) == s.flag(Flags::DECIMAL_MODE),
{
    lemma_byte_fields(v);
    lemma_with_flag(s, Flags::ZERO, v == 0);
    lemma_with_flag(s.with_z(v), Flags::NEGATIVE, v >> 7u8 == 1);
    assert(s.with_zn(v).flag(Flags::ZERO) == s.with_z(v).flag(Flags::ZERO));
    assert(s.with_zn(v).flag(Flags::CARRY) == s.with_z(v).flag(Flags::CARRY));
    assert(s.with_zn(v).flag(Flags::OVERFLOW) == s.with_z(v).flag(Flags::OVERFLOW));
    assert(s.with_zn(v).flag(Flags::INTERRUPT_DISABLE) == s.with_z(v).flag(Flags::INTERRUPT_DISABLE));
    assert(s.with_zn(v).flag(Flags::DECIMAL_MODE) == s.with_z(v).flag(Flags::DECIMAL_MODE));
}

/// LDA, LDX and LDY put the operand value `m` in their register, set zero and negative from
/// it and leave the carry and overflow flags as they were.
pub proof fn lemma_loads(s: CpuState, op: OpCode)
    ensures
        ({
            let f: (u8, bool, CpuState) = s.fetched(op);
            let m: u8 = f.0;
            &&& s.lda(op).accumulator == m && s.lda(op).index_x == s.index_x && s.lda(op).index_y == s.index_y
            &&& s.ldx(op).index_x == m && s.ldx(op).accumulator == s.accumulator && s.ldx(op).index_y == s.index_y
            &&& s.ldy(op).index_y == m && s.ldy(op).accumulator == s.accumulator && s.ldy(op).index_x == s.index_x
            &&& s.lda(op).flag(Flags::ZERO) == (m == 0) && s.lda(op).flag(Flags::NEGATIVE) == (m >= 128)
            &&& s.ldx(op).flag(Flags::ZERO) == (m == 0) && s.ldx(op).flag(Flags::NEGATIVE) == (m >= 128)
            &&& s.ldy(op).flag(Flags::ZERO) == (m == 0) && s.ldy(op).flag(Flags::NEGATIVE) == (m >= 128)
            &&& s.lda(op).flag(Flags::CARRY) == s.flag(Flags::CARRY)
            &&& s.lda(op).flag(Flags::OVERFLOW) == s.flag(Flags::OVERFLOW)
        }),
{
    let f: (u8, bool, CpuState) = s.fetched(op);
    lemma_with_zn(CpuState { accumulator: f.0, ..f.2 }, f.0);
    lemma_with_zn(CpuState { index_x: f.0, ..f.2 }, f.0);
    lemma_with_zn(CpuState { index_y: f.0, ..f.2 }, f.0);
}

/// AND, EOR and ORA combine the accumulator `a` with the operand value `m` bit by bit and
/// set zero and negative from the result.
pub proof fn lemma_logic(s: CpuState, op: OpCode)
    ensures
        ({
            let m: u8 = s.fetched(op).0;
            let a: u8 = s.accumulator;
            &&& s.and(op).accumulator == m & a
            &&& s.eor(op).accumulator == m ^ a
            &&& s.ora(op).accumulator == m | a
            &&& s.and(op).flag(Flags::ZERO) == (m & a == 0) && s.and(op).flag(Flags::NEGATIVE) == (m & a >= 128)
            &&& s.eor(op).flag(Flags::ZERO) == (m ^ a == 0) && s.eor(op).flag(Flags::NEGATIVE) == (m ^ a >= 128)
            &&& s.ora(op).flag(Flags::ZERO) == (m | a == 0) && s.ora(op).flag(Flags::NEGATIVE) == (m | a >= 128)
            &&& s.and(op).flag(Flags::CARRY) == s.flag(Flags::CARRY)
        }),
{
    let f: (u8, bool, CpuState) = s.fetched(op);
    let a: u8 = s.accumulator;
    lemma_with_zn(CpuState { accumulator: f.0 & a, ..f.2 }, f.0 & a);
    lemma_with_zn(CpuState { accumulator: f.0 ^ a, ..f.2 }, f.0 ^ a);
    lemma_with_zn(CpuState { accumulator: f.0 | a, ..f.2 }, f.0 | a);
}

/// BIT tests the accumulator `a` against the operand value `m`: zero exactly when they share
/// no bit, negative and overflow copied from bits 7 and 6 of `m`, the accumulator and the carry
/// left as they were.
pub proof fn lemma_bit_test(s: CpuState, op: OpCode)
    ensures
        ({
            let m: u8 = s.fetched(op).0;
            let r: CpuState = s.bit(op);
            &&& r.flag(Flags::ZERO) == (s.accumulator & m == 0)
            &&& r.flag(Flags::NEGATIVE) == (m & 0x80u8 != 0)
            &&& r.flag(Flags::OVERFLOW) == (m & 0x40u8 != 0)
            &&& r.flag(Flags::CARRY) == s.flag(Flags::CARRY)
            &&& r.accumulator == s.accumulator
        }),
{
    let f: (u8, bool, CpuState) = s.fetched(op);
    let a: u8 = s.accumulator;
    let z: CpuState = f.2.with_z(a & f.0);
    lemma_with_flag(f.2, Flags::ZERO, a & f.0 == 0);
    lemma_with_flag(z, Flags::NEGATIVE, f.0 & 0x80u8 > 0);
    lemma_with_flag(z.with_flag(Flags::NEGATIVE, f.0 & 0x80u8 > 0), Flags::OVERFLOW, f.0 & 0x40u8 > 0);
}

/// The accumulator forms of ASL, LSR, ROL and ROR, as arithmetic on the accumulator `a` and
/// the carry `c`: ASL gives `2a` modulo 256 and carries out bit 7; LSR gives `a / 2` and
/// carries out bit 0; ROL gives `2a + c` modulo 256 and carries out bit 7; ROR gives
/// `a / 2 + 128c` and carries out bit 0. Zero and negative follow the result.
#[verifier::rlimit(30)]
pub proof fn lemma_shifts(s: CpuState, op: OpCode)
    requires
        op.mode == AddressingMode::Accumulator,
    ensures
        ({
            let a: int = s.accumulator as int;
            let c: int = s.carry_bit() as int;
            &&& s.asl(op).accumulator == (2 * a) % 256 && s.asl(op).flag(Flags::CARRY) == (a >= 128)
            &&& s.lsr(op).accumulator == a / 2 && s.lsr(op).flag(Flags::CARRY) == (a % 2 == 1)
            &&& s.rol(op).accumulator == (2 * a + c) % 256 && s.rol(op).flag(Flags::CARRY) == (a >= 128)
            &&& s.ror(op).accumulator == a / 2 + 128 * c && s.ror(op).flag(Flags::CARRY) == (a % 2 == 1)
            &&& s.asl(op).flag(Flags::ZERO) == (s.asl(op).accumulator == 0)
            &&& s.asl(op).flag(Flags::NEGATIVE) == (s.asl(op).accumulator >= 128)
            &&& s.lsr(op).flag(Flags::ZERO) == (s.lsr(op).accumulator == 0)
            &&& s.lsr(op).flag(Flags::NEGATIVE) == (s.lsr(op).accumulator >= 128)
            &&& s.rol(op).flag(Flags::ZERO) == (s.rol(op).accumulator == 0)
            &&& s.rol(op).flag(Flags::NEGATIVE) == (s.rol(op).accumulator >= 128)
            &&& s.ror(op).flag(Flags::ZERO) == (s.ror(op).accumulator == 0)
            &&& s.ror(op).flag(Flags::NEGATIVE) == (s.ror(op).accumulator >= 128)
        }),
{
    let a: u8 = s.accumulator;
    let c: u8 = s.carry_bit();
    lemma_shift_bits(a, c);
    let l: u8 = a << 1u8;
    let r: u8 = a >> 1u8;
    let lc: u8 = (a << 1u8) | c;
    let rc: u8 = (a >> 1u8) | (c << 7u8);
    assert(l as int == (2 * a as int) % 256);
    assert(r as int == a as int / 2);
    assert(lc as int == (2 * a as int + c as int) % 256);
    assert(rc as int == a as int / 2 + 128 * c as int);
    let hi: CpuState = s.with_flag(Flags::CARRY, a >> 7u8 == 1);
    let lo: CpuState = s.with_flag(Flags::CARRY, a & 1u8 == 1);
    lemma_with_flag(s, Flags::CARRY, a >> 7u8 == 1);
    lemma_with_flag(s, Flags::CARRY, a & 1u8 == 1);
    assert(hi.flag(Flags::CARRY) == (a >> 7u8 == 1));
    assert(lo.flag(Flags::CARRY) == (a & 1u8 == 1));
    lemma_with_zn(CpuState { accumulator: a << 1u8, ..hi }, a << 1u8);
    lemma_with_zn(CpuState { accumulator: a >> 1u8, ..lo }, a >> 1u8);
    lemma_with_zn(CpuState { accumulator: (a << 1u8) | c, ..hi }, (a << 1u8) | c);
    lemma_with_zn(CpuState { accumulator: (a >> 1u8) | (c << 7u8), ..lo }, (a >> 1u8) | (c << 7u8));
}

/// INX, INY, DEX and DEY count their register up or down by one modulo 256 and set zero and
/// negative from the new value; TAX, TAY, TXA, TYA and TSX copy one register into another and
/// set zero and negative from it; TXS copies X into the stack pointer and leaves the flags.
pub proof fn lemma_registers(s: CpuState, op: OpCode)
    ensures
        s.inx(op).index_x == (s.index_x + 1) % 256,
        s.iny(op).index_y == (s.index_y + 1) % 256,
        s.dex(op).index_x == (s.index_x + 255) % 256,
        s.dey(op).index_y == (s.index_y + 255) % 256,
        s.inx(op).flag(Flags::ZERO) == (s.inx(op).index_x == 0),
        s.inx(op).flag(Flags::NEGATIVE) == (s.inx(op).index_x >= 128),
        s.dey(op).flag(Flags::ZERO) == (s.dey(op).index_y == 0),
        s.dey(op).flag(Flags::NEGATIVE) == (s.dey(op).index_y >= 128),
        s.tax(op).index_x == s.accumulator && s.tax(op).accumulator == s.accumulator,
        s.tay(op).index_y == s.accumulator && s.tay(op).accumulator == s.accumulator,
        s.txa(op).accumulator == s.index_x && s.txa(op).index_x == s.index_x,
        s.tya(op).accumulator == s.index_y && s.tya(op).index_y == s.index_y,
        s.tsx(op).index_x == s.stack_pointer,
        s.txs(op).stack_pointer == s.index_x && s.txs(op).status == s.status,
        s.tax(op).flag(Flags::ZERO) == (s.accumulator == 0),
        s.tax(op).flag(Flags::NEGATIVE) == (s.accumulator >= 128),
{
    lemma_with_zn(CpuState { index_x: s.index_x.wrapping_add(1), ..s }, s.index_x.wrapping_add(1));
    lemma_with_zn(CpuState { index_y: s.index_y.wrapping_sub(1), ..s }, s.index_y.wrapping_sub(1));
    lemma_with_zn(CpuState { index_x: s.accumulator, ..s }, s.accumulator);
}

/// A conditional branch goes to the address after its operand moved by the operand byte `b`
/// read as a signed number (modulo 65536) exactly when its condition holds: BCC on carry
/// clear, BCS on carry set, BEQ on zero set, BNE on zero clear, BMI on negative set, BPL on
/// negative clear, BVC on overflow clear, BVS on overflow set; otherwise the program counter
/// stays. The operand byte is read after the taken branch's extra cycle.
pub proof fn lemma_branches(s: CpuState, op: OpCode)
    requires
        op.mode == AddressingMode::Relative,
    ensures
        ({
            let pc: int = s.program_counter as int;
            let b: u8 = s.tick(1).read(s.program_counter).0;
            let target: int = ((pc + 1) % 65536 + signed(b) + 65536) % 65536;
            let c: bool = s.flag(Flags::CARRY);
            let z: bool = s.flag(Flags::ZERO);
            let n: bool = s.flag(Flags::NEGATIVE);
            let v: bool = s.flag(Flags::OVERFLOW);
            &&& s.bcc(op).program_counter == if !c { target } else { pc }
            &&& s.bcs(op).program_counter == if c { target } else { pc }
            &&& s.beq(op).program_counter == if z { target } else { pc }
            &&& s.bne(op).program_counter == if !z { target } else { pc }
            &&& s.bmi(op).program_counter == if n { target } else { pc }
            &&& s.bpl(op).program_counter == if !n { target } else { pc }
            &&& s.bvc(op).program_counter == if !v { target } else { pc }
            &&& s.bvs(op).program_counter == if v { target } else { pc }
        }),
{
    lemma_operand_relative(s.tick(1), s.program_counter, true);
}

/// INC and DEC write the operand value `v` plus or minus one modulo 256 back to the operand
/// address and set zero and negative from the value written.
pub proof fn lemma_inc_dec(s: CpuState, op: OpCode)
    ensures
        ({
            let r: (u8, u16, CpuState) = s.rmw_read(op);
            let up: u8 = ((r.0 + 1) % 256) as u8;
            let down: u8 = ((r.0 + 255) % 256) as u8;
            &&& s.inc(op).bus == r.2.write(r.1, up).bus
            &&& s.dec(op).bus == r.2.write(r.1, down).bus
            &&& s.inc(op).flag(Flags::ZERO) == (up == 0) && s.inc(op).flag(Flags::NEGATIVE) == (up >= 128)
            &&& s.dec(op).flag(Flags::ZERO) == (down == 0) && s.dec(op).flag(Flags::NEGATIVE) == (down >= 128)
        }),
{
    let r: (u8, u16, CpuState) = s.rmw_read(op);
    let up: u8 = ((r.0 + 1) % 256) as u8;
    let down: u8 = ((r.0 + 255) % 256) as u8;
    assert(r.0.wrapping_add(1) == up);
    assert(r.0.wrapping_sub(1) == down);
    lemma_with_zn(r.2.write(r.1, up), up);
    lemma_with_zn(r.2.write(r.1, down), down);
}

} // verus!
