use vstd::prelude::*;

use crate::tools::bits::{lemma_byte_fields, lemma_word_fields};

use super::addr::AddressingMode;
use super::common::{
    add_to_accumulator, branch, compare, set_accumulator, set_index_x, set_index_y, stack_pop, stack_pop_u16,
    stack_push, stack_push_u16, sub_from_accumulator, update_flag_if, update_flags_n, update_flags_z,
    update_flags_zn,
};
use super::interrupt::{Interrupt, InterruptType};
use super::opcode::{Instruction, OpCode};
use super::{CPU, CpuState, Flags};

verus! {

broadcast use super::lemma_operand_in_frame;

impl CPU {
    /// Enters `interrupt` (see `CpuState::interrupted`).
    pub fn interrupt(&mut self, interrupt: Interrupt)
        requires
            old(self)@.interrupted(interrupt).ok,
            old(self)@.bus.wf(),
        ensures
            final(self)@ == old(self)@.interrupted(interrupt),
            final(self)@.bus.wf(),
    {
        let pc: u16 = self.program_counter;
        stack_push_u16(self, pc);
        let mut flag: Flags = self.status;
        let is_brk: bool = interrupt.itype == InterruptType::BRK && interrupt.vector_addr == 0xFFFA
            && interrupt.cpu_cycles == 0;
        flag.set(Flags::BREAK, is_brk);
        flag.insert(Flags::UNUSED);
        stack_push(self, flag.bits());
        self.status.insert(Flags::INTERRUPT_DISABLE);
        self.bus_tick(interrupt.cpu_cycles);
        let interrupt_vector: u16 = self.bus_read_u16(interrupt.vector_addr);
        self.program_counter = interrupt_vector;
    }

    /// Executes `opcode`, whose opcode byte has been consumed (see `CpuState::executed`).
    pub fn execute_instruction(&mut self, opcode: &OpCode)
        requires
            old(self)@.executed(*opcode).ok,
            old(self)@.bus.wf(),
        ensures
            final(self)@ == old(self)@.executed(*opcode),
            final(self)@.bus.wf(),
    {
        reveal(CpuState::executed);
        match opcode.instruction {
            Instruction::LDA => self.lda(opcode),
            Instruction::LDX => self.ldx(opcode),
            Instruction::LDY => self.ldy(opcode),
            Instruction::STA => self.sta(opcode),
            Instruction::STX => self.stx(opcode),
            Instruction::STY => self.sty(opcode),
            Instruction::TAX => self.tax(opcode),
            Instruction::TAY => self.tay(opcode),
            Instruction::TXA => self.txa(opcode),
            Instruction::TYA => self.tya(opcode),
            Instruction::TSX => self.tsx(opcode),
            Instruction::TXS => self.txs(opcode),
            Instruction::PHA => self.pha(opcode),
            Instruction::PHP => self.php(opcode),
            Instruction::PLA => self.pla(opcode),
            Instruction::PLP => self.plp(opcode),
            Instruction::AND => self.and(opcode),
            Instruction::EOR => self.eor(opcode),
            Instruction::ORA => self.ora(opcode),
            Instruction::BIT => self.bit(opcode),
            Instruction::ADC => self.adc(opcode),
            Instruction::SBC => self.sbc(opcode),
            Instruction::CMP => self.cmp(opcode),
            Instruction::CPX => self.cpx(opcode),
            Instruction::CPY => self.cpy(opcode),
            Instruction::INC => self.inc(opcode),
            Instruction::INX => self.inx(opcode),
            Instruction::INY => self.iny(opcode),
            Instruction::DEC => self.dec(opcode),
            Instruction::DEX => self.dex(opcode),
            Instruction::DEY => self.dey(opcode),
            Instruction::ASL => self.asl(opcode),
            Instruction::LSR => self.lsr(opcode),
            Instruction::ROL => self.rol(opcode),
            Instruction::ROR => self.ror(opcode),
            Instruction::JMP => self.jmp(opcode),
            Instruction::JSR => self.jsr(opcode),
            Instruction::RTS => self.rts(opcode),
            Instruction::BCC => self.bcc(opcode),
            Instruction::BCS => self.bcs(opcode),
            Instruction::BEQ => self.beq(opcode),
            Instruction::BMI => self.bmi(opcode),
            Instruction::BNE => self.bne(opcode),
            Instruction::BPL => self.bpl(opcode),
            Instruction::BVC => self.bvc(opcode),
            Instruction::BVS => self.bvs(opcode),
            Instruction::CLC => self.clc(opcode),
            Instruction::CLD => self.cld(opcode),
            Instruction::CLI => self.cli(opcode),
            Instruction::CLV => self.clv(opcode),
            Instruction::SEC => self.sec(opcode),
            Instruction::SED => self.sed(opcode),
            Instruction::SEI => self.sei(opcode),
            Instruction::BRK => self.brk(opcode),
            Instruction::NOP => self.nop(opcode),
            Instruction::RTI => self.rti(opcode),
            Instruction::NOP_ALT => self.nop_alt(opcode),
            Instruction::SLO => self.slo(opcode),
            Instruction::RLA => self.rla(opcode),
            Instruction::SRE => self.sre(opcode),
            Instruction::RRA => self.rra(opcode),
            Instruction::SAX => self.sax(opcode),
            Instruction::LAX => self.lax(opcode),
            Instruction::DCP => self.dcp(opcode),
            Instruction::ISC => self.isc(opcode),
            Instruction::ANC => self.anc(opcode),
            Instruction::ALR => self.alr(opcode),
            Instruction::ARR => self.arr(opcode),
            Instruction::XAA => self.xaa(opcode),
            Instruction::AXS => self.axs(opcode),
            Instruction::SBC_NOP => self.sbc_nop(opcode),
            Instruction::AHX => self.ahx(opcode),
            Instruction::SHY => self.shy(opcode),
            Instruction::SHX => self.shx(opcode),
            Instruction::TAS => self.tas(opcode),
            Instruction::LAS => self.las(opcode),
            Instruction::KIL => self.kil(opcode),
        }
    }

    fn lda(&mut self, opcode: &OpCode)
        requires
            old(self)@.lda(*opcode).ok,
            old(self)@.bus.wf(),
        ensures
            final(self)@ == old(self)@.lda(*opcode),
            final(self)@.bus.wf(),
    {
        let (addr, page_cross): (u16, bool) = opcode.get_operand_address(self);
        let value: u8 = self.bus_read(addr);
        set_accumulator(self, value);
        if page_cross {
            self.bus_tick(1);
        }
    
    }

    fn ldx(&mut self, opcode: &OpCode)
        requires
            old(self)@.ldx(*opcode).ok,
            old(self)@.bus.wf(),
        ensures
            final(self)@ == old(self)@.ldx(*opcode),
            final(self)@.bus.wf(),
    {
        let (addr, page_cross): (u16, bool) = opcode.get_operand_address(self);
        let value: u8 = self.bus_read(addr);
        set_index_x(self, value);
        if page_cross {
            self.bus_tick(1);
        }
    
    }

    fn ldy(&mut self, opcode: &OpCode)
        requires
            old(self)@.ldy(*opcode).ok,
            old(self)@.bus.wf(),
        ensures
            final(self)@ == old(self)@.ldy(*opcode),
            final(self)@.bus.wf(),
    {
        let (addr, page_cross): (u16, bool) = opcode.get_operand_address(self);
        let value: u8 = self.bus_read(addr);
        set_index_y(self, value);
        if page_cross {
            self.bus_tick(1);
        }
    
    }

    fn sta(&mut self, opcode: &OpCode)
        requires
            old(self)@.sta(*opcode).ok,
            old(self)@.bus.wf(),
        ensures
            final(self)@ == old(self)@.sta(*opcode),
            final(self)@.bus.wf(),
    {
        let (addr, _): (u16, bool) = opcode.get_operand_address(self);
        let a: u8 = self.accumulator;
        self.bus_write(addr, a);
    
    }

    fn stx(&mut self, opcode: &OpCode)
        requires
            old(self)@.stx(*opcode).ok,
            old(self)@.bus.wf(),
        ensures
            final(self)@ == old(self)@.stx(*opcode),
            final(self)@.bus.wf(),
    {
        let (addr, _): (u16, bool) = opcode.get_operand_address(self);
        let x: u8 = self.index_x;
        self.bus_write(addr, x);
    
    }

    fn sty(&mut self, opcode: &OpCode)
        requires
            old(self)@.sty(*opcode).ok,
            old(self)@.bus.wf(),
        ensures
            final(self)@ == old(self)@.sty(*opcode),
            final(self)@.bus.wf(),
    {
        let (addr, _): (u16, bool) = opcode.get_operand_address(self);
        let y: u8 = self.index_y;
        self.bus_write(addr, y);
    
    }

    fn tax(&mut self, opcode: &OpCode)
        requires
            old(self)@.tax(*opcode).ok,
            old(self)@.bus.wf(),
        ensures
            final(self)@ == old(self)@.tax(*opcode),
            final(self)@.bus.wf(),
    {
        let a: u8 = self.accumulator;
        set_index_x(self, a);
    
    }

    fn tay(&mut self, opcode: &OpCode)
        requires
            old(self)@.tay(*opcode).ok,
            old(self)@.bus.wf(),
        ensures
            final(self)@ == old(self)@.tay(*opcode),
            final(self)@.bus.wf(),
    {
        let a: u8 = self.accumulator;
        set_index_y(self, a);
    
    }

    fn txa(&mut self, opcode: &OpCode)
        requires
            old(self)@.txa(*opcode).ok,
            old(self)@.bus.wf(),
        ensures
            final(self)@ == old(self)@.txa(*opcode),
            final(self)@.bus.wf(),
    {
        let x: u8 = self.index_x;
        set_accumulator(self, x);
    
    }

    fn tya(&mut self, opcode: &OpCode)
        requires
            old(self)@.tya(*opcode).ok,
            old(self)@.bus.wf(),
        ensures
            final(self)@ == old(self)@.tya(*opcode),
            final(self)@.bus.wf(),
    {
        let y: u8 = self.index_y;
        set_accumulator(self, y);
    
    }

    fn tsx(&mut self, opcode: &OpCode)
        requires
            old(self)@.tsx(*opcode).ok,
            old(self)@.bus.wf(),
        ensures
            final(self)@ == old(self)@.tsx(*opcode),
            final(self)@.bus.wf(),
    {
        let sp: u8 = self.stack_pointer;
        set_index_x(self, sp);
    
    }

    fn txs(&mut self, opcode: &OpCode)
        requires
            old(self)@.txs(*opcode).ok,
            old(self)@.bus.wf(),
        ensures
            final(self)@ == old(self)@.txs(*opcode),
            final(self)@.bus.wf(),
    {
        self.stack_pointer = self.index_x;
    
    }

    fn pha(&mut self, opcode: &OpCode)
        requires
            old(self)@.pha(*opcode).ok,
            old(self)@.bus.wf(),
        ensures
            final(self)@ == old(self)@.pha(*opcode),
            final(self)@.bus.wf(),
    {
        let a: u8 = self.accumulator;
        stack_push(self, a);
    
    }

    fn php(&mut self, opcode: &OpCode)
        requires
            old(self)@.php(*opcode).ok,
            old(self)@.bus.wf(),
        ensures
            final(self)@ == old(self)@.php(*opcode),
            final(self)@.bus.wf(),
    {
        let mut flags: Flags = self.status;
        flags.insert(Flags::BREAK);
        flags.insert(Flags::UNUSED);
        stack_push(self, flags.bits());
    
    }

    fn pla(&mut self, opcode: &OpCode)
        requires
            old(self)@.pla(*opcode).ok,
            old(self)@.bus.wf(),
        ensures
            final(self)@ == old(self)@.pla(*opcode),
            final(self)@.bus.wf(),
    {
        let value: u8 = stack_pop(self);
        set_accumulator(self, value);
    
    }

    fn plp(&mut self, opcode: &OpCode)
        requires
            old(self)@.plp(*opcode).ok,
            old(self)@.bus.wf(),
        ensures
            final(self)@ == old(self)@.plp(*opcode),
            final(self)@.bus.wf(),
    {
        let value: u8 = stack_pop(self);
        self.status = Flags::from_bits_truncate(value);
        self.status.remove(Flags::BREAK);
        self.status.insert(Flags::UNUSED);
    
    }

    fn and(&mut self, opcode: &OpCode)
        requires
            old(self)@.and(*opcode).ok,
            old(self)@.bus.wf(),
        ensures
            final(self)@ == old(self)@.and(*opcode),
            final(self)@.bus.wf(),
    {
        let (addr, page_cross): (u16, bool) = opcode.get_operand_address(self);
        let data: u8 = self.bus_read(addr);
        let a: u8 = self.accumulator;
        set_accumulator(self, data & a);
        if page_cross {
            self.bus_tick(1);
        }
    
    }

    fn eor(&mut self, opcode: &OpCode)
        requires
            old(self)@.eor(*opcode).ok,
            old(self)@.bus.wf(),
        ensures
            final(self)@ == old(self)@.eor(*opcode),
            final(self)@.bus.wf(),
    {
        let (addr, page_cross): (u16, bool) = opcode.get_operand_address(self);
        let data: u8 = self.bus_read(addr);
        let a: u8 = self.accumulator;
        set_accumulator(self, data ^ a);
        if page_cross {
            self.bus_tick(1);
        }
    
    }

    fn ora(&mut self, opcode: &OpCode)
        requires
            old(self)@.ora(*opcode).ok,
            old(self)@.bus.wf(),
        ensures
            final(self)@ == old(self)@.ora(*opcode),
            final(self)@.bus.wf(),
    {
        let (addr, page_cross): (u16, bool) = opcode.get_operand_address(self);
        let data: u8 = self.bus_read(addr);
        let a: u8 = self.accumulator;
        set_accumulator(self, data | a);
        if page_cross {
            self.bus_tick(1);
        }
    
    }

    fn bit(&mut self, opcode: &OpCode)
        requires
            old(self)@.bit(*opcode).ok,
            old(self)@.bus.wf(),
        ensures
            final(self)@ == old(self)@.bit(*opcode),
            final(self)@.bus.wf(),
    {
        let (addr, _): (u16, bool) = opcode.get_operand_address(self);
        let data: u8 = self.bus_read(addr);
        let a: u8 = self.accumulator;
        update_flags_z(self, a & data);
        self.status.set(Flags::NEGATIVE, data & 0b1000_0000 > 0);
        self.status.set(Flags::OVERFLOW, data & 0b0100_0000 > 0);
    
    }

    fn adc(&mut self, opcode: &OpCode)
        requires
            old(self)@.adc(*opcode).ok,
            old(self)@.bus.wf(),
        ensures
            final(self)@ == old(self)@.adc(*opcode),
            final(self)@.bus.wf(),
    {
        let (addr, page_cross): (u16, bool) = opcode.get_operand_address(self);
        let value: u8 = self.bus_read(addr);
        add_to_accumulator(self, value);
        if page_cross {
            self.bus_tick(1);
        }
    
    }

    fn sbc(&mut self, opcode: &OpCode)
        requires
            old(self)@.sbc(*opcode).ok,
            old(self)@.bus.wf(),
        ensures
            final(self)@ == old(self)@.sbc(*opcode),
            final(self)@.bus.wf(),
    {
        let (addr, page_cross): (u16, bool) = opcode.get_operand_address(self);
        let value: u8 = self.bus_read(addr);
        sub_from_accumulator(self, value);
        if page_cross {
            self.bus_tick(1);
        }
    
    }

    fn cmp(&mut self, opcode: &OpCode)
        requires
            old(self)@.cmp(*opcode).ok,
            old(self)@.bus.wf(),
        ensures
            final(self)@ == old(self)@.cmp(*opcode),
            final(self)@.bus.wf(),
    {
        let a: u8 = self.accumulator;
        compare(self, opcode, a);
    
    }

    fn cpx(&mut self, opcode: &OpCode)
        requires
            old(self)@.cpx(*opcode).ok,
            old(self)@.bus.wf(),
        ensures
            final(self)@ == old(self)@.cpx(*opcode),
            final(self)@.bus.wf(),
    {
        let x: u8 = self.index_x;
        compare(self, opcode, x);
    
    }

    fn cpy(&mut self, opcode: &OpCode)
        requires
            old(self)@.cpy(*opcode).ok,
            old(self)@.bus.wf(),
        ensures
            final(self)@ == old(self)@.cpy(*opcode),
            final(self)@.bus.wf(),
    {
        let y: u8 = self.index_y;
        compare(self, opcode, y);
    
    }

    fn inc(&mut self, opcode: &OpCode)
        requires
            old(self)@.inc(*opcode).ok,
            old(self)@.bus.wf(),
        ensures
            final(self)@ == old(self)@.inc(*opcode),
            final(self)@.bus.wf(),
    {
        let (addr, _): (u16, bool) = opcode.get_operand_address(self);
        let data: u8 = self.bus_read(addr).wrapping_add(1);
        self.bus_write(addr, data);
        update_flags_zn(self, data);
    
    }

    fn inx(&mut self, opcode: &OpCode)
        requires
            old(self)@.inx(*opcode).ok,
            old(self)@.bus.wf(),
        ensures
            final(self)@ == old(self)@.inx(*opcode),
            final(self)@.bus.wf(),
    {
        let x: u8 = self.index_x;
        set_index_x(self, x.wrapping_add(1));
    
    }

    fn iny(&mut self, opcode: &OpCode)
        requires
            old(self)@.iny(*opcode).ok,
            old(self)@.bus.wf(),
        ensures
            final(self)@ == old(self)@.iny(*opcode),
            final(self)@.bus.wf(),
    {
        let y: u8 = self.index_y;
        set_index_y(self, y.wrapping_add(1));
    
    }

    fn dec(&mut self, opcode: &OpCode)
        requires
            old(self)@.dec(*opcode).ok,
            old(self)@.bus.wf(),
        ensures
            final(self)@ == old(self)@.dec(*opcode),
            final(self)@.bus.wf(),
    {
        let (addr, _): (u16, bool) = opcode.get_operand_address(self);
        let data: u8 = self.bus_read(addr).wrapping_sub(1);
        self.bus_write(addr, data);
        update_flags_zn(self, data);
    
    }

    fn dex(&mut self, opcode: &OpCode)
        requires
            old(self)@.dex(*opcode).ok,
            old(self)@.bus.wf(),
        ensures
            final(self)@ == old(self)@.dex(*opcode),
            final(self)@.bus.wf(),
    {
        let x: u8 = self.index_x;
        set_index_x(self, x.wrapping_sub(1));
    
    }

    fn dey(&mut self, opcode: &OpCode)
        requires
            old(self)@.dey(*opcode).ok,
            old(self)@.bus.wf(),
        ensures
            final(self)@ == old(self)@.dey(*opcode),
            final(self)@.bus.wf(),
    {
        let y: u8 = self.index_y;
        set_index_y(self, y.wrapping_sub(1));
    
    }

    fn asl(&mut self, opcode: &OpCode)
        requires
            old(self)@.asl(*opcode).ok,
            old(self)@.bus.wf(),
        ensures
            final(self)@ == old(self)@.asl(*opcode),
            final(self)@.bus.wf(),
    {
        match opcode.mode {
            AddressingMode::Accumulator => {
                let data: u8 = self.accumulator;
                update_flag_if(self, Flags::CARRY, data >> 7 == 1);
                set_accumulator(self, data << 1);
            },
            _ => {
                let (addr, _): (u16, bool) = opcode.get_operand_address(self);
                let mut data: u8 = self.bus_read(addr);
                update_flag_if(self, Flags::CARRY, data >> 7 == 1);
                data = data << 1;
                self.bus_write(addr, data);
                update_flags_zn(self, data);
            },
        }
    
    }

    fn lsr(&mut self, opcode: &OpCode)
        requires
            old(self)@.lsr(*opcode).ok,
            old(self)@.bus.wf(),
        ensures
            final(self)@ == old(self)@.lsr(*opcode),
            final(self)@.bus.wf(),
    {
        match opcode.mode {
            AddressingMode::Accumulator => {
                let data: u8 = self.accumulator;
                update_flag_if(self, Flags::CARRY, data & 1 == 1);
                set_accumulator(self, data >> 1);
            },
            _ => {
                let (addr, _): (u16, bool) = opcode.get_operand_address(self);
                let mut data: u8 = self.bus_read(addr);
                update_flag_if(self, Flags::CARRY, data & 1 == 1);
                data = data >> 1;
                self.bus_write(addr, data);
                update_flags_zn(self, data);
            },
        }
    
    }

    fn rol(&mut self, opcode: &OpCode)
        requires
            old(self)@.rol(*opcode).ok,
            old(self)@.bus.wf(),
        ensures
            final(self)@ == old(self)@.rol(*opcode),
            final(self)@.bus.wf(),
    {
        match opcode.mode {
            AddressingMode::Accumulator => {
                let mut data: u8 = self.accumulator;
                let old_carry: bool = self.status.contains(Flags::CARRY);
                update_flag_if(self, Flags::CARRY, data >> 7 == 1);
                data = data << 1;
                if old_carry {
                    data = data | 1;
                } else {
                    proof { lemma_byte_fields(data); }
                }
                set_accumulator(self, data);
            },
            _ => {
                let (addr, _): (u16, bool) = opcode.get_operand_address(self);
                let mut data: u8 = self.bus_read(addr);
                let old_carry: bool = self.status.contains(Flags::CARRY);
                update_flag_if(self, Flags::CARRY, data >> 7 == 1);
                data = data << 1;
                if old_carry {
                    data = data | 1;
                } else {
                    proof { lemma_byte_fields(data); }
                }
                self.bus_write(addr, data);
                update_flags_n(self, data);
            },
        }
    
    }

    fn ror(&mut self, opcode: &OpCode)
        requires
            old(self)@.ror(*opcode).ok,
            old(self)@.bus.wf(),
        ensures
            final(self)@ == old(self)@.ror(*opcode),
            final(self)@.bus.wf(),
    {
        match opcode.mode {
            AddressingMode::Accumulator => {
                let mut data: u8 = self.accumulator;
                let old_carry: bool = self.status.contains(Flags::CARRY);
                update_flag_if(self, Flags::CARRY, data & 1 == 1);
                data = data >> 1;
                if old_carry {
                    proof { lemma_byte_fields(data); }
                    data = data | 0b1000_0000;
                } else {
                    proof { lemma_byte_fields(data); }
                }
                set_accumulator(self, data);
            },
            _ => {
                let (addr, _): (u16, bool) = opcode.get_operand_address(self);
                let mut data: u8 = self.bus_read(addr);
                let old_carry: bool = self.status.contains(Flags::CARRY);
                update_flag_if(self, Flags::CARRY, data & 1 == 1);
                data = data >> 1;
                if old_carry {
                    proof { lemma_byte_fields(data); }
                    data = data | 0b1000_0000;
                } else {
                    proof { lemma_byte_fields(data); }
                }
                self.bus_write(addr, data);
                update_flags_n(self, data);
            },
        }
    
    }

    fn jmp(&mut self, opcode: &OpCode)
        requires
            old(self)@.jmp(*opcode).ok,
            old(self)@.bus.wf(),
        ensures
            final(self)@ == old(self)@.jmp(*opcode),
            final(self)@.bus.wf(),
    {
        let (addr, _): (u16, bool) = opcode.get_operand_address(self);
        self.program_counter = addr;
    
    }

    fn jsr(&mut self, opcode: &OpCode)
        requires
            old(self)@.jsr(*opcode).ok,
            old(self)@.bus.wf(),
        ensures
            final(self)@ == old(self)@.jsr(*opcode),
            final(self)@.bus.wf(),
    {
        let (addr, _): (u16, bool) = opcode.get_operand_address(self);
        let ret: u16 = self.program_counter + 1;
        stack_push_u16(self, ret);
        self.program_counter = addr;
    
    }

    fn rts(&mut self, opcode: &OpCode)
        requires
            old(self)@.rts(*opcode).ok,
            old(self)@.bus.wf(),
        ensures
            final(self)@ == old(self)@.rts(*opcode),
            final(self)@.bus.wf(),
    {
        let ret: u16 = stack_pop_u16(self);
        self.program_counter = ret + 1;
    
    }

    fn bcc(&mut self, opcode: &OpCode)
        requires
            old(self)@.bcc(*opcode).ok,
            old(self)@.bus.wf(),
        ensures
            final(self)@ == old(self)@.bcc(*opcode),
            final(self)@.bus.wf(),
    {
        let c: bool = !self.status.contains(Flags::CARRY);
        branch(self, opcode, c);
    
    }

    fn bcs(&mut self, opcode: &OpCode)
        requires
            old(self)@.bcs(*opcode).ok,
            old(self)@.bus.wf(),
        ensures
            final(self)@ == old(self)@.bcs(*opcode),
            final(self)@.bus.wf(),
    {
        let c: bool = self.status.contains(Flags::CARRY);
        branch(self, opcode, c);
    
    }

    fn beq(&mut self, opcode: &OpCode)
        requires
            old(self)@.beq(*opcode).ok,
            old(self)@.bus.wf(),
        ensures
            final(self)@ == old(self)@.beq(*opcode),
            final(self)@.bus.wf(),
    {
        let c: bool = self.status.contains(Flags::ZERO);
        branch(self, opcode, c);
    
    }

    fn bmi(&mut self, opcode: &OpCode)
        requires
            old(self)@.bmi(*opcode).ok,
            old(self)@.bus.wf(),
        ensures
            final(self)@ == old(self)@.bmi(*opcode),
            final(self)@.bus.wf(),
    {
        let c: bool = self.status.contains(Flags::NEGATIVE);
        branch(self, opcode, c);
    
    }

    fn bne(&mut self, opcode: &OpCode)
        requires
            old(self)@.bne(*opcode).ok,
            old(self)@.bus.wf(),
        ensures
            final(self)@ == old(self)@.bne(*opcode),
            final(self)@.bus.wf(),
    {
        let c: bool = !self.status.contains(Flags::ZERO);
        branch(self, opcode, c);
    
    }

    fn bpl(&mut self, opcode: &OpCode)
        requires
            old(self)@.bpl(*opcode).ok,
            old(self)@.bus.wf(),
        ensures
            final(self)@ == old(self)@.bpl(*opcode),
            final(self)@.bus.wf(),
    {
        let c: bool = !self.status.contains(Flags::NEGATIVE);
        branch(self, opcode, c);
    
    }

    fn bvc(&mut self, opcode: &OpCode)
        requires
            old(self)@.bvc(*opcode).ok,
            old(self)@.bus.wf(),
        ensures
            final(self)@ == old(self)@.bvc(*opcode),
            final(self)@.bus.wf(),
    {
        let c: bool = !self.status.contains(Flags::OVERFLOW);
        branch(self, opcode, c);
    
    }

    fn bvs(&mut self, opcode: &OpCode)
        requires
            old(self)@.bvs(*opcode).ok,
            old(self)@.bus.wf(),
        ensures
            final(self)@ == old(self)@.bvs(*opcode),
            final(self)@.bus.wf(),
    {
        let c: bool = self.status.contains(Flags::OVERFLOW);
        branch(self, opcode, c);
    
    }

    fn clc(&mut self, opcode: &OpCode)
        requires
            old(self)@.clc(*opcode).ok,
            old(self)@.bus.wf(),
        ensures
            final(self)@ == old(self)@.clc(*opcode),
            final(self)@.bus.wf(),
    {
        self.status.remove(Flags::CARRY);
    }

    fn cld(&mut self, opcode: &OpCode)
        requires
            old(self)@.cld(*opcode).ok,
            old(self)@.bus.wf(),
        ensures
            final(self)@ == old(self)@.cld(*opcode),
            final(self)@.bus.wf(),
    {
        self.status.remove(Flags::DECIMAL_MODE);
    }

    fn cli(&mut self, opcode: &OpCode)
        requires
            old(self)@.cli(*opcode).ok,
            old(self)@.bus.wf(),
        ensures
            final(self)@ == old(self)@.cli(*opcode),
            final(self)@.bus.wf(),
    {
        self.status.remove(Flags::INTERRUPT_DISABLE);
    }

    fn clv(&mut self, opcode: &OpCode)
        requires
            old(self)@.clv(*opcode).ok,
            old(self)@.bus.wf(),
        ensures
            final(self)@ == old(self)@.clv(*opcode),
            final(self)@.bus.wf(),
    {
        self.status.remove(Flags::OVERFLOW);
    }

    fn sec(&mut self, opcode: &OpCode)
        requires
            old(self)@.sec(*opcode).ok,
            old(self)@.bus.wf(),
        ensures
            final(self)@ == old(self)@.sec(*opcode),
            final(self)@.bus.wf(),
    {
        self.status.insert(Flags::CARRY);
    }

    fn sed(&mut self, opcode: &OpCode)
        requires
            old(self)@.sed(*opcode).ok,
            old(self)@.bus.wf(),
        ensures
            final(self)@ == old(self)@.sed(*opcode),
            final(self)@.bus.wf(),
    {
        self.status.insert(Flags::DECIMAL_MODE);
    }

    fn sei(&mut self, opcode: &OpCode)
        requires
            old(self)@.sei(*opcode).ok,
            old(self)@.bus.wf(),
        ensures
            final(self)@ == old(self)@.sei(*opcode),
            final(self)@.bus.wf(),
    {
        self.status.insert(Flags::INTERRUPT_DISABLE);
    }

    fn brk(&mut self, opcode: &OpCode)
        requires
            old(self)@.brk(*opcode).ok,
            old(self)@.bus.wf(),
        ensures
            final(self)@ == old(self)@.brk(*opcode),
            final(self)@.bus.wf(),
    {
        if !self.status.contains(Flags::INTERRUPT_DISABLE) {
            self.interrupt(Interrupt::brk());
        }
    
    }

    fn nop(&mut self, opcode: &OpCode)
        requires
            old(self)@.nop(*opcode).ok,
            old(self)@.bus.wf(),
        ensures
            final(self)@ == old(self)@.nop(*opcode),
            final(self)@.bus.wf(),
    {

    }

    fn rti(&mut self, opcode: &OpCode)
        requires
            old(self)@.rti(*opcode).ok,
            old(self)@.bus.wf(),
        ensures
            final(self)@ == old(self)@.rti(*opcode),
            final(self)@.bus.wf(),
    {
        let value: u8 = stack_pop(self);
        self.status = Flags::from_bits_truncate(value);
        self.status.remove(Flags::BREAK);
        self.status.insert(Flags::UNUSED);
        let ret: u16 = stack_pop_u16(self);
        self.program_counter = ret;
    
    }

    fn nop_alt(&mut self, opcode: &OpCode)
        requires
            old(self)@.nop_alt(*opcode).ok,
            old(self)@.bus.wf(),
        ensures
            final(self)@ == old(self)@.nop_alt(*opcode),
            final(self)@.bus.wf(),
    {
        match opcode.mode {
            AddressingMode::Implicit => {},
            _ => {
                let (addr, page_cross): (u16, bool) = opcode.get_operand_address(self);
                let _data: u8 = self.bus_read(addr);
                if page_cross {
                    self.bus_tick(1);
                }
            },
        }
    
    }

    fn slo(&mut self, opcode: &OpCode)
        requires
            old(self)@.slo(*opcode).ok,
            old(self)@.bus.wf(),
        ensures
            final(self)@ == old(self)@.slo(*opcode),
            final(self)@.bus.wf(),
    {
        let (addr, _): (u16, bool) = opcode.get_operand_address(self);
        let mut data: u8 = self.bus_read(addr);
        update_flag_if(self, Flags::CARRY, data >> 7 == 1);
        data = data << 1;
        self.bus_write(addr, data);
        update_flags_zn(self, data);
        let a: u8 = self.accumulator;
        set_accumulator(self, data | a);
    
    }

    fn rla(&mut self, opcode: &OpCode)
        requires
            old(self)@.rla(*opcode).ok,
            old(self)@.bus.wf(),
        ensures
            final(self)@ == old(self)@.rla(*opcode),
            final(self)@.bus.wf(),
    {
        let (addr, _): (u16, bool) = opcode.get_operand_address(self);
        let mut data: u8 = self.bus_read(addr);
        let old_carry: bool = self.status.contains(Flags::CARRY);
        update_flag_if(self, Flags::CARRY, data >> 7 == 1);
        data = data << 1;
        if old_carry {
            data = data | 1;
        } else {
            proof { lemma_byte_fields(data); }
        }
        self.bus_write(addr, data);
        update_flags_n(self, data);
        let a: u8 = self.accumulator;
        set_accumulator(self, data & a);
    
    }

    fn sre(&mut self, opcode: &OpCode)
        requires
            old(self)@.sre(*opcode).ok,
            old(self)@.bus.wf(),
        ensures
            final(self)@ == old(self)@.sre(*opcode),
            final(self)@.bus.wf(),
    {
        let (addr, _): (u16, bool) = opcode.get_operand_address(self);
        let mut data: u8 = self.bus_read(addr);
        update_flag_if(self, Flags::CARRY, data & 1 == 1);
        data = data >> 1;
        self.bus_write(addr, data);
        update_flags_zn(self, data);
        let a: u8 = self.accumulator;
        set_accumulator(self, data ^ a);
    
    }

    fn rra(&mut self, opcode: &OpCode)
        requires
            old(self)@.rra(*opcode).ok,
            old(self)@.bus.wf(),
        ensures
            final(self)@ == old(self)@.rra(*opcode),
            final(self)@.bus.wf(),
    {
        let (addr, _): (u16, bool) = opcode.get_operand_address(self);
        let mut data: u8 = self.bus_read(addr);
        let old_carry: bool = self.status.contains(Flags::CARRY);
        update_flag_if(self, Flags::CARRY, data & 1 == 1);
        data = data >> 1;
        if old_carry {
            proof { lemma_byte_fields(data); }
            data = data | 0b1000_0000;
        } else {
            proof { lemma_byte_fields(data); }
        }
        self.bus_write(addr, data);
        update_flags_n(self, data);
        add_to_accumulator(self, data);
    
    }

    fn sax(&mut self, opcode: &OpCode)
        requires
            old(self)@.sax(*opcode).ok,
            old(self)@.bus.wf(),
        ensures
            final(self)@ == old(self)@.sax(*opcode),
            final(self)@.bus.wf(),
    {
        let (addr, _): (u16, bool) = opcode.get_operand_address(self);
        let data: u8 = self.accumulator & self.index_x;
        self.bus_write(addr, data);
    
    }

    fn lax(&mut self, opcode: &OpCode)
        requires
            old(self)@.lax(*opcode).ok,
            old(self)@.bus.wf(),
        ensures
            final(self)@ == old(self)@.lax(*opcode),
            final(self)@.bus.wf(),
    {
        let (addr, page_cross): (u16, bool) = opcode.get_operand_address(self);
        let data: u8 = self.bus_read(addr);
        set_accumulator(self, data);
        self.index_x = self.accumulator;
        if page_cross {
            self.bus_tick(1);
        }
    
    }

    fn dcp(&mut self, opcode: &OpCode)
        requires
            old(self)@.dcp(*opcode).ok,
            old(self)@.bus.wf(),
        ensures
            final(self)@ == old(self)@.dcp(*opcode),
            final(self)@.bus.wf(),
    {
        let (addr, _): (u16, bool) = opcode.get_operand_address(self);
        let data: u8 = self.bus_read(addr).wrapping_sub(1);
        self.bus_write(addr, data);
        let a: u8 = self.accumulator;
        update_flag_if(self, Flags::CARRY, data <= a);
        update_flags_zn(self, a.wrapping_sub(data));
    
    }

    fn isc(&mut self, opcode: &OpCode)
        requires
            old(self)@.isc(*opcode).ok,
            old(self)@.bus.wf(),
        ensures
            final(self)@ == old(self)@.isc(*opcode),
            final(self)@.bus.wf(),
    {
        let (addr, _): (u16, bool) = opcode.get_operand_address(self);
        let data: u8 = self.bus_read(addr).wrapping_add(1);
        self.bus_write(addr, data);
        update_flags_zn(self, data);
        sub_from_accumulator(self, data);
    
    }

    fn anc(&mut self, opcode: &OpCode)
        requires
            old(self)@.anc(*opcode).ok,
            old(self)@.bus.wf(),
        ensures
            final(self)@ == old(self)@.anc(*opcode),
            final(self)@.bus.wf(),
    {
        let (addr, _): (u16, bool) = opcode.get_operand_address(self);
        let data: u8 = self.bus_read(addr);
        let a: u8 = self.accumulator;
        set_accumulator(self, data & a);
        let n: bool = self.status.contains(Flags::NEGATIVE);
        update_flag_if(self, Flags::CARRY, n);
    
    }

    fn alr(&mut self, opcode: &OpCode)
        requires
            old(self)@.alr(*opcode).ok,
            old(self)@.bus.wf(),
        ensures
            final(self)@ == old(self)@.alr(*opcode),
            final(self)@.bus.wf(),
    {
        let (addr, _): (u16, bool) = opcode.get_operand_address(self);
        let data: u8 = self.bus_read(addr) & self.accumulator;
        update_flag_if(self, Flags::CARRY, data & 1 == 1);
        set_accumulator(self, data >> 1);
    
    }

    fn arr(&mut self, opcode: &OpCode)
        requires
            old(self)@.arr(*opcode).ok,
            old(self)@.bus.wf(),
        ensures
            final(self)@ == old(self)@.arr(*opcode),
            final(self)@.bus.wf(),
    {
        let (addr, _): (u16, bool) = opcode.get_operand_address(self);
        let mut data: u8 = self.bus_read(addr) & self.accumulator;
        let old_carry: bool = self.status.contains(Flags::CARRY);
        update_flag_if(self, Flags::CARRY, data & 1 == 1);
        data = data >> 1;
        if old_carry {
            proof { lemma_byte_fields(data); }
            data = data | 0b1000_0000;
        } else {
            proof { lemma_byte_fields(data); }
        }
        set_accumulator(self, data);
        let bit_5: u8 = (self.accumulator >> 5) & 1;
        let bit_6: u8 = (self.accumulator >> 6) & 1;
        update_flag_if(self, Flags::CARRY, bit_6 == 1);
        update_flag_if(self, Flags::OVERFLOW, bit_5 ^ bit_6 == 1);
    
    }

    fn xaa(&mut self, opcode: &OpCode)
        requires
            old(self)@.xaa(*opcode).ok,
            old(self)@.bus.wf(),
        ensures
            final(self)@ == old(self)@.xaa(*opcode),
            final(self)@.bus.wf(),
    {
        let (addr, _): (u16, bool) = opcode.get_operand_address(self);
        let data: u8 = self.bus_read(addr);
        let x: u8 = self.index_x;
        set_accumulator(self, data & x);
    
    }

    fn axs(&mut self, opcode: &OpCode)
        requires
            old(self)@.axs(*opcode).ok,
            old(self)@.bus.wf(),
        ensures
            final(self)@ == old(self)@.axs(*opcode),
            final(self)@.bus.wf(),
    {
        let (addr, _): (u16, bool) = opcode.get_operand_address(self);
        let data: u8 = self.bus_read(addr);
        let result: u8 = (self.index_x & self.accumulator).wrapping_sub(data);
        let xa: u8 = self.index_x & self.accumulator;
        update_flag_if(self, Flags::CARRY, data <= xa);
        update_flags_zn(self, result);
        self.index_x = result
    
    }

    fn sbc_nop(&mut self, opcode: &OpCode)
        requires
            old(self)@.sbc_nop(*opcode).ok,
            old(self)@.bus.wf(),
        ensures
            final(self)@ == old(self)@.sbc_nop(*opcode),
            final(self)@.bus.wf(),
    {
        let (addr, _): (u16, bool) = opcode.get_operand_address(self);
        let data: u8 = self.bus_read(addr);
        sub_from_accumulator(self, data);
    
    }

    fn ahx(&mut self, opcode: &OpCode)
        requires
            old(self)@.ahx(*opcode).ok,
            old(self)@.bus.wf(),
        ensures
            final(self)@ == old(self)@.ahx(*opcode),
            final(self)@.bus.wf(),
    {
        let (addr, _): (u16, bool) = opcode.get_operand_address(self);
        proof { lemma_word_fields(addr); }
        let data: u8 = self.accumulator & self.index_x & (addr >> 8) as u8;
        self.bus_write(addr, data);
    
    }

    fn shy(&mut self, opcode: &OpCode)
        requires
            old(self)@.shy(*opcode).ok,
            old(self)@.bus.wf(),
        ensures
            final(self)@ == old(self)@.shy(*opcode),
            final(self)@.bus.wf(),
    {
        let (addr, _): (u16, bool) = opcode.get_operand_address(self);
        proof { lemma_word_fields(addr); }
        let data: u8 = self.index_y & ((addr >> 8) as u8 + 1);
        self.bus_write(addr, data);
    
    }

    fn shx(&mut self, opcode: &OpCode)
        requires
            old(self)@.shx(*opcode).ok,
            old(self)@.bus.wf(),
        ensures
            final(self)@ == old(self)@.shx(*opcode),
            final(self)@.bus.wf(),
    {
        let (addr, _): (u16, bool) = opcode.get_operand_address(self);
        proof { lemma_word_fields(addr); }
        let data: u8 = self.index_x & ((addr >> 8) as u8 + 1);
        self.bus_write(addr, data);
    
    }

    fn tas(&mut self, opcode: &OpCode)
        requires
            old(self)@.tas(*opcode).ok,
            old(self)@.bus.wf(),
        ensures
            final(self)@ == old(self)@.tas(*opcode),
            final(self)@.bus.wf(),
    {
        self.stack_pointer = self.accumulator & self.index_x;
        let (addr, _): (u16, bool) = opcode.get_operand_address(self);
        proof { lemma_word_fields(addr); }
        let data: u8 = ((addr >> 8) as u8 + 1) & self.stack_pointer;
        self.bus_write(addr, data);
    
    }

    fn las(&mut self, opcode: &OpCode)
        requires
            old(self)@.las(*opcode).ok,
            old(self)@.bus.wf(),
        ensures
            final(self)@ == old(self)@.las(*opcode),
            final(self)@.bus.wf(),
    {
        let (addr, _): (u16, bool) = opcode.get_operand_address(self);
        let data: u8 = self.bus_read(addr) & self.stack_pointer;
        self.accumulator = data;
        self.index_x = data;
        self.stack_pointer = data;
        update_flags_zn(self, data);
    
    }

    fn kil(&mut self, opcode: &OpCode)
        requires
            old(self)@.kil(*opcode).ok,
            old(self)@.bus.wf(),
        ensures
            final(self)@ == old(self)@.kil(*opcode),
            final(self)@.bus.wf(),
    {
        // KIL halts the processor.
        self.running = false;
    }

}
} // verus!
