use vstd::prelude::*;

verus! {

#[derive(Debug, Clone, Copy, PartialEq, Eq, Structural)]
pub enum InterruptType {
    NMI,
    IRQ,
    BRK,
    PHP,
}

/// An interrupt source: where its vector is read from and how many CPU cycles entering it takes.
#[derive(Debug, Clone, Copy, PartialEq, Eq, Structural)]
pub struct Interrupt {
    pub itype: InterruptType,
    pub vector_addr: u16,
    pub cpu_cycles: usize,
}

impl Interrupt {
    /// The non-maskable interrupt raised at the start of vertical blanking.
    pub fn nmi() -> (i: Interrupt)
        ensures
            i == (Interrupt { itype: InterruptType::NMI, vector_addr: 0xFFFA, cpu_cycles: 2 }),
    {
        Interrupt { itype: InterruptType::NMI, vector_addr: 0xFFFA, cpu_cycles: 2 }
    }

    pub fn irq() -> (i: Interrupt)
        ensures
            i == (Interrupt { itype: InterruptType::IRQ, vector_addr: 0xFFFE, cpu_cycles: 1 }),
    {
        Interrupt { itype: InterruptType::IRQ, vector_addr: 0xFFFE, cpu_cycles: 1 }
    }

    /// The interrupt the BRK instruction enters.
    pub fn brk() -> (i: Interrupt)
        ensures
            i == (Interrupt { itype: InterruptType::BRK, vector_addr: 0xFFFA, cpu_cycles: 0 }),
    {
        Interrupt { itype: InterruptType::BRK, vector_addr: 0xFFFA, cpu_cycles: 0 }
    }

    pub fn php() -> (i: Interrupt)
        ensures
            i == (Interrupt { itype: InterruptType::PHP, vector_addr: 0xFFFA, cpu_cycles: 0 }),
    {
        Interrupt { itype: InterruptType::PHP, vector_addr: 0xFFFA, cpu_cycles: 0 }
    }
}

} // verus!
