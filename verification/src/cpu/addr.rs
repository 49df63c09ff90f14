use vstd::prelude::*;

use super::{CPU, CpuState};
use crate::tools::{bytes_to_u16, page_cross};

verus! {

broadcast use super::lemma_operand_in_frame;

/// How an instruction finds its operand.
#[derive(Copy, Clone, Debug, PartialEq, Eq, Structural)]
#[allow(non_camel_case_types)]
pub enum AddressingMode {
    Implicit,
    Accumulator,
    Immediate,
    ZeroPage,
    ZeroPage_X,
    ZeroPage_Y,
    Relative,
    Absolute,
    Absolute_X,
    Absolute_Y,
    Indirect,
    /// aka IndexedIndirect
    Indirect_X,
    /// aka IndirectIndexed
    Indirect_Y,
}

/// The length in bytes of an instruction in each mode (opcode byte included).
pub open spec fn mode_len(mode: AddressingMode) -> u8 {
    match mode {
        AddressingMode::Implicit | AddressingMode::Accumulator => 1,
        AddressingMode::Absolute | AddressingMode::Absolute_X | AddressingMode::Absolute_Y
        | AddressingMode::Indirect => 3,
        _ => 2,
    }
}

/// Whether a mode names a memory operand (every mode but Implicit, Accumulator and Immediate).
pub open spec fn addresses_memory(mode: AddressingMode) -> bool {
    !(mode is Implicit || mode is Accumulator || mode is Immediate)
}

impl AddressingMode {
    /// The length in bytes of an instruction in this mode.
    pub fn bytes(self) -> (len: u8)
        ensures
            len == mode_len(self),
    {
        match self {
            AddressingMode::Implicit => 1,
            AddressingMode::Accumulator => 1,
            AddressingMode::Immediate => 2,
            AddressingMode::ZeroPage => 2,
            AddressingMode::ZeroPage_X => 2,
            AddressingMode::ZeroPage_Y => 2,
            AddressingMode::Relative => 2,
            AddressingMode::Absolute => 3,
            AddressingMode::Absolute_X => 3,
            AddressingMode::Absolute_Y => 3,
            AddressingMode::Indirect => 3,
            AddressingMode::Indirect_X => 2,
            AddressingMode::Indirect_Y => 2,
        }
    }

    /// The operand address of an instruction whose operand bytes follow the program
    /// counter, and whether indexing crossed a page.
    pub fn get_operand_address(self, cpu: &mut CPU) -> (result: (u16, bool))
        requires
            self is Immediate || addresses_memory(self),
            old(cpu)@.operand_at(self, false).2.ok,
            old(cpu)@.bus.wf(),
        ensures
            ({
                let r: (u16, bool, CpuState) = old(cpu)@.operand_at(self, false);
                result == (r.0, r.1) && final(cpu)@ == r.2
            }),
            final(cpu)@.bus.wf(),
    {
        match self {
            AddressingMode::Immediate => (cpu.program_counter, false),
            _ => {
                let pc: u16 = cpu.program_counter;
                self.get_absolute_address(cpu, pc)
            },
        }
    }

    /// The operand address for operand bytes at `addr`, and whether indexing crossed a page.
    /// Indexed-indirect and indirect-indexed pointers are read as plain words here.
    pub fn get_absolute_address(self, cpu: &mut CPU, addr: u16) -> (result: (u16, bool))
        requires
            addresses_memory(self),
            old(cpu)@.operand_in(self, addr, false).2.ok,
            old(cpu)@.bus.wf(),
        ensures
            ({
                let r: (u16, bool, CpuState) = old(cpu)@.operand_in(self, addr, false);
                result == (r.0, r.1) && final(cpu)@ == r.2
            }),
            final(cpu)@.bus.wf(),
    {
        cpu.absolute_address(self, addr, false)
    }
}

} // verus!
