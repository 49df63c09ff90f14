use vstd::prelude::*;

use super::addr::addresses_memory;
use super::opcode::{Instruction, OpCode};
use super::{CPU, CpuState, Flags};

verus! {

broadcast use super::lemma_operand_in_frame;

/// The instructions this stand-alone executor carries out: jumps, the flag instructions and
/// `NOP`. Any other instruction is refused.
pub open spec fn executes(op: OpCode) -> bool {
    match op.instruction {
        Instruction::JMP => op.mode is Immediate || addresses_memory(op.mode),
        Instruction::CLC | Instruction::CLD | Instruction::CLI | Instruction::CLV => true,
        Instruction::SEC | Instruction::SED | Instruction::SEI => true,
        Instruction::NOP => true,
        _ => false,
    }
}

/// What the stand-alone executor does with `op`: a jump loads the operand address into the
/// program counter (indirect pointers read as plain words), the flag instructions clear or set
/// their flag, `NOP` changes nothing.
pub open spec fn executed_alone(s: CpuState, op: OpCode) -> CpuState {
    match op.instruction {
        Instruction::JMP => {
            let o: (u16, bool, CpuState) = s.operand_at(op.mode, false);
            o.2.with_pc(o.0)
        },
        Instruction::CLC => s.with_flag(Flags::CARRY, false),
        Instruction::CLD => s.with_flag(Flags::DECIMAL_MODE, false),
        Instruction::CLI => s.with_flag(Flags::INTERRUPT_DISABLE, false),
        Instruction::CLV => s.with_flag(Flags::OVERFLOW, false),
        Instruction::SEC => s.with_flag(Flags::CARRY, true),
        Instruction::SED => s.with_flag(Flags::DECIMAL_MODE, true),
        Instruction::SEI => s.with_flag(Flags::INTERRUPT_DISABLE, true),
        _ => s,
    }
}

/// Executes `opcode` on `cpu` and returns the cycles it took, which are the opcode's own:
/// none of these instructions takes extra cycles.
pub fn execute_instruction(cpu: &mut CPU, opcode: &OpCode) -> (cycles: u64)
    requires
        executes(*opcode),
        executed_alone(old(cpu)@, *opcode).ok,
        old(cpu)@.bus.wf(),
    ensures
        final(cpu)@ == executed_alone(old(cpu)@, *opcode),
        final(cpu)@.bus.wf(),
        cycles == opcode.cycles,
{
    match opcode.instruction {
        Instruction::JMP => {
            let (addr, _): (u16, bool) = opcode.mode.get_operand_address(cpu);
            cpu.program_counter = addr;
        },
        Instruction::CLC => cpu.status.remove(Flags::CARRY),
        Instruction::CLD => cpu.status.remove(Flags::DECIMAL_MODE),
        Instruction::CLI => cpu.status.remove(Flags::INTERRUPT_DISABLE),
        Instruction::CLV => cpu.status.remove(Flags::OVERFLOW),
        Instruction::SEC => cpu.status.insert(Flags::CARRY),
        Instruction::SED => cpu.status.insert(Flags::DECIMAL_MODE),
        Instruction::SEI => cpu.status.insert(Flags::INTERRUPT_DISABLE),
        _ => {},
    }
    opcode.cycles as u64
}

} // verus!
