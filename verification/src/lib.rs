use vstd::prelude::*;

pub mod bus;
pub mod cartridge;
pub mod cpu;
pub mod input_device;
pub mod mapper;
pub mod memory;
pub mod ppu;
pub mod tools;

use bus::{Bus, BusView};
use cartridge::Rom;
use cpu::{CPU, CpuState};
use input_device::NESDeviceType;
use mapper::Mapper;
use mapper::mapper000::prg_index;
use memory::Memory;
use ppu::PPU;
use ppu::renderer::Renderer;

verus! {

pub const SCREEN_WIDTH: usize = 256;
pub const SCREEN_HEIGHT: usize = 240;

/// The television standard a console is built for.
#[derive(Debug, Clone, Copy, PartialEq, Eq, Structural)]
#[allow(clippy::upper_case_acronyms)]
pub enum Region {
    NTSC,
    PAL,
}

/// One round of the run loop: a pending interrupt is taken and, if the CPU is running, one
/// instruction is executed.
pub open spec fn run_round(s: CpuState) -> CpuState {
    let p: CpuState = s.interrupts_polled();
    if p.running { p.stepped() } else { p }
}

/// Runs rounds of the run loop from `s` until the CPU stops: the state in which it is found
/// stopped, when that happens within `fuel` rounds and every round before was served.
pub open spec fn halted_within(s: CpuState, fuel: nat) -> Option<CpuState>
    decreases fuel,
{
    let p: CpuState = s.interrupts_polled();
    if fuel == 0 || !p.ok {
        None
    } else if !p.running {
        Some(p)
    } else {
        let n: CpuState = p.stepped();
        if !n.ok { None } else { halted_within(n, (fuel - 1) as nat) }
    }
}

/// The program run from `s` stops (by a halting instruction or by the CPU being stopped)
/// with every round served.
pub open spec fn halts(s: CpuState) -> bool {
    exists|fuel: nat| (#[trigger] halted_within(s, fuel)) is Some
}

/// The state in which a program that halts from `s` stops.
pub open spec fn halted(s: CpuState) -> CpuState {
    halted_within(s, choose|fuel: nat| (#[trigger] halted_within(s, fuel)) is Some)->0
}

/// A run that stops within some number of rounds stops in the same state for any larger
/// number: the stopping state does not depend on the fuel.
pub proof fn lemma_halted_within_unique(s: CpuState, f1: nat, f2: nat)
    requires
        halted_within(s, f1) is Some,
        halted_within(s, f2) is Some,
    ensures
        halted_within(s, f1) == halted_within(s, f2),
    decreases f1,
{
    let p: CpuState = s.interrupts_polled();
    if p.running {
        lemma_halted_within_unique(p.stepped(), (f1 - 1) as nat, (f2 - 1) as nat);
    }
}

/// The size of the pattern memory a cartridge brings: its CHR-ROM, or CHR-RAM when it has
/// no CHR-ROM.
pub open spec fn chr_size(rom: &Rom) -> nat {
    if rom.chr_rom@.len() == 0 { rom.chr_ram_size as nat } else { rom.chr_rom@.len() }
}

/// Whether a console can be built for `rom`: its board is mapper 0 and the reset vector at
/// $FFFC-$FFFD lies inside its PRG-ROM.
pub open spec fn runnable(rom: &Rom) -> bool {
    &&& rom.mapper == 0
    &&& prg_index(rom.prg_rom@.len(), 0xFFFC) < rom.prg_rom@.len()
    &&& prg_index(rom.prg_rom@.len(), 0xFFFD) < rom.prg_rom@.len()
}

/// Whether `rom` can be run (see `runnable`).
pub fn runnable_rom(rom: &Rom) -> (ok: bool)
    ensures
        ok == runnable(rom),
{
    let len: usize = rom.prg_rom.len();
    let vector: usize = if len == 0x4000 { 0x3FFC } else { 0x7FFC };
    rom.mapper == 0 && vector < len && vector + 1 < len
}

/// The memories of a console powered up with `rom`: zeroed work RAM, the cartridge's
/// PRG-ROM, zeroed PRG-RAM of its size, and its CHR-ROM or zeroed CHR-RAM of its size.
pub open spec fn power_up_memory(rom: &Rom) -> memory::MemoryView {
    memory::MemoryView {
        cpu_vram: Seq::new(2048, |i: int| 0u8),
        prg_rom: rom.prg_rom@,
        prg_ram: Seq::new(rom.prg_ram_size as nat, |i: int| 0u8),
        chr_mem: if rom.chr_rom@.len() == 0 {
            Seq::new(rom.chr_ram_size as nat, |i: int| 0u8)
        } else {
            rom.chr_rom@
        },
        use_chr_ram: rom.chr_rom@.len() == 0,
    }
}

/// A powered-up PPU over `memory`: all memories and registers zero, at dot 0 of scanline 0.
pub open spec fn power_up_ppu(memory: memory::MemoryView, mirroring: cartridge::Mirroring) -> ppu::PpuView {
    ppu::PpuView {
        memory,
        vram: Seq::new(2048, |i: int| 0u8),
        mirroring,
        oam_addr: 0,
        oam_data: Seq::new(256, |i: int| 0u8),
        palette_table: Seq::new(32, |i: int| 0u8),
        register_latch: false,
        ctrl: ppu::registers::control::ControlRegister(0),
        mask: ppu::registers::mask::MaskRegister(0),
        status: ppu::registers::status::StatusRegister(0),
        vram_addr: 0,
        temp_addr: 0,
        scroll_fine_x: 0,
        internal_data_buf: 0,
        scanline: 0,
        odd_frame: false,
        dot: 0,
        cycles: 0,
        nmi_interrupt: None,
        region: Region::NTSC,
    }
}

/// A renderer with empty pipelines and sprite lists and a frame of colour index 0.
pub open spec fn power_up_renderer() -> ppu::renderer::RendererView {
    ppu::renderer::RendererView {
        background_latch: tools::BitPlane { lo: 0, hi: 0 },
        background_shift: tools::BitPlane { lo: 0, hi: 0 },
        attribute_latch: tools::BitPlane { lo: 0, hi: 0 },
        attribute_shift: tools::BitPlane { lo: 0, hi: 0 },
        scratch_address: 0,
        nametable_entry: 0,
        attribute_entry: 0,
        primary_oam: Seq::empty(),
        secondary_oam: Seq::empty(),
        pixels: Seq::new(ppu::renderer::FRAME_PIXELS as nat, |i: int| 0u8),
    }
}

/// A console powered up with `rom`: registers clear, stack pointer $FD, interrupts disabled,
/// the program counter at the reset vector, no controllers, nothing run yet.
pub open spec fn power_up(rom: &Rom) -> CpuState {
    let prg: Seq<u8> = rom.prg_rom@;
    CpuState {
        running: false,
        accumulator: 0,
        index_x: 0,
        index_y: 0,
        stack_pointer: cpu::STACK_RESET,
        program_counter: tools::word(prg[prg_index(prg.len(), 0xFFFC)], prg[prg_index(prg.len(), 0xFFFD)]),
        status: 0b0010_0100,
        fresh: true,
        bus: BusView {
            cpu_cycles: 0,
            mapper: mapper::mapper000::MapperView {
                ppu: power_up_ppu(power_up_memory(rom), rom.screen_mirroring),
                device1: None,
                device2: None,
            },
            renderer: power_up_renderer(),
            frame_count: 0,
        },
        ok: true,
    }
}

/// The console: the CPU, which owns the bus and through it the board, the PPU, the memory
/// and the renderer, and the cartridge it was built with.
pub struct NES {
    pub cpu: CPU,
    pub rom: Rom,
}

impl NES {
    /// A console for `rom`, powered up: fresh memory for the cartridge, a PPU with the
    /// cartridge's mirroring, no controllers, and the program counter at the reset vector.
    pub fn new(rom: Rom) -> (nes: Self)
        requires
            runnable(&rom),
        ensures
            nes.cpu@ == power_up(&rom),
            nes.cpu@.bus.wf() == (chr_size(&rom) >= 0x2000),
            nes.rom == rom,
    {
        let memory: Memory = Memory::new(&rom);
        let renderer: Renderer = Renderer::new();
        let ppu: PPU = PPU::new(memory, rom.screen_mirroring);
        let board = mapper::init_mapper(&rom, ppu);
        let bus: Bus = Bus::new(board, renderer);
        proof {
            reveal(mapper::mapper000::MapperView::read_ok);
            reveal(mapper::mapper000::MapperView::read);
            assert(bus@.read_u16_ok(0xFFFC));
        }
        let cpu: CPU = CPU::new(bus);
        proof {
            assert(cpu@.bus.mapper.ppu.memory =~= power_up_memory(&rom));
            assert(cpu@.bus.mapper.ppu =~= power_up_ppu(power_up_memory(&rom), rom.screen_mirroring));
            assert(cpu@.bus.renderer =~= power_up_renderer());
            assert(cpu@ =~= power_up(&rom));
        }
        NES { cpu, rom }
    }

    /// A reset: the CPU resets (see `CpuState::reset_state`), and the PPU and the renderer
    /// return to their power-up state.
    pub fn reset(&mut self)
        requires
            old(self).cpu@.reset_state().ok,
            old(self).cpu@.bus.wf(),
        ensures
            ({
                let r: CpuState = old(self).cpu@.reset_state();
                &&& final(self).cpu@ == (CpuState {
                    bus: BusView {
                        mapper: mapper::mapper000::MapperView {
                            ppu: ppu::PpuView {
                                ctrl: ppu::registers::control::ControlRegister(0),
                                mask: ppu::registers::mask::MaskRegister(0),
                                scanline: 0,
                                odd_frame: false,
                                dot: 0,
                                cycles: 0,
                                nmi_interrupt: None,
                                ..r.bus.mapper.ppu
                            },
                            ..r.bus.mapper
                        },
                        renderer: ppu::renderer::RendererView {
                            primary_oam: Seq::empty(),
                            secondary_oam: Seq::empty(),
                            pixels: Seq::new(ppu::renderer::FRAME_PIXELS as nat, |i: int| 0u8),
                            ..r.bus.renderer
                        },
                        ..r.bus
                    },
                    ..r
                })
                &&& final(self).cpu@.bus.wf()
                &&& final(self).rom == old(self).rom
            }),
    {
        self.cpu.reset();
        self.cpu.bus.mapper.ppu.reset();
        self.cpu.bus.renderer.reset();
    }

    /// One round of the run loop (see `run_round`); whether an instruction was executed,
    /// that is whether the CPU is running.
    pub fn step(&mut self) -> (stepped: bool)
        requires
            old(self).cpu@.interrupts_polled().ok,
            old(self).cpu@.interrupts_polled().running ==> old(self).cpu@.interrupts_polled().stepped().ok,
            old(self).cpu@.bus.wf(),
        ensures
            final(self).cpu@ == run_round(old(self).cpu@),
            stepped == old(self).cpu@.interrupts_polled().running,
            final(self).cpu@.bus.wf(),
            final(self).rom == old(self).rom,
    {
        self.cpu.pre_step();
        if self.cpu.running {
            self.cpu.step();
            true
        } else {
            false
        }
    }

    /// Starts the CPU and runs the program until the CPU stops; it ends in the state
    /// `halted` gives.
    pub fn run(&mut self)
        requires
            old(self).cpu@.started().ok,
            halts(old(self).cpu@.started()),
            old(self).cpu@.bus.wf(),
        ensures
            final(self).cpu@ == halted(old(self).cpu@.started()),
            final(self).cpu@.bus.wf(),
            final(self).rom == old(self).rom,
    {
        self.cpu.start();
        let ghost start: CpuState = self.cpu@;
        let ghost mut fuel: nat = choose|fuel: nat| (#[trigger] halted_within(start, fuel)) is Some;
        let ghost target: CpuState = halted(start);
        loop
            invariant_except_break
                halted_within(self.cpu@, fuel) == Some(target),
            invariant
                self.cpu@.bus.wf(),
                self.rom == old(self).rom,
            ensures
                self.cpu@ == target,
                self.cpu@.bus.wf(),
                self.rom == old(self).rom,
            decreases fuel,
        {
            self.cpu.pre_step();
            if !self.cpu.running {
                break;
            }
            self.cpu.step();
            proof {
                fuel = (fuel - 1) as nat;
            }
        }
    }

    /// The controller in port 1, which must be plugged in.
    pub fn device1(&self) -> (d: &input_device::joypad::Joypad)
        requires
            self.cpu.bus.mapper.device1.is_some(),
        ensures
            *d == self.cpu.bus.mapper.device1.unwrap(),
    {
        self.cpu.bus.mapper.device1()
    }

    /// The controller in port 1, which must be plugged in, for changing.
    pub fn device1_mut(&mut self) -> (d: &mut input_device::joypad::Joypad)
        requires
            old(self).cpu.bus.mapper.device1.is_some(),
        ensures
            *d == old(self).cpu.bus.mapper.device1.unwrap(),
            final(self).cpu.bus.mapper.device1 == Some(*final(d)),
            final(self).cpu.bus.mapper.device2 == old(self).cpu.bus.mapper.device2,
            final(self).cpu@ == (CpuState {
                bus: BusView {
                    mapper: mapper::mapper000::MapperView { device1: Some(*final(d)), ..old(self).cpu@.bus.mapper },
                    ..old(self).cpu@.bus
                },
                ..old(self).cpu@
            }),
            final(self).rom == old(self).rom,
    {
        self.cpu.bus.mapper.device1_mut()
    }

    /// The controller in port 2, which must be plugged in.
    pub fn device2(&self) -> (d: &input_device::joypad::Joypad)
        requires
            self.cpu.bus.mapper.device2.is_some(),
        ensures
            *d == self.cpu.bus.mapper.device2.unwrap(),
    {
        self.cpu.bus.mapper.device2()
    }

    /// The controller in port 2, which must be plugged in, for changing.
    pub fn device2_mut(&mut self) -> (d: &mut input_device::joypad::Joypad)
        requires
            old(self).cpu.bus.mapper.device2.is_some(),
        ensures
            *d == old(self).cpu.bus.mapper.device2.unwrap(),
            final(self).cpu@ == (CpuState {
                bus: BusView {
                    mapper: mapper::mapper000::MapperView { device2: Some(*final(d)), ..old(self).cpu@.bus.mapper },
                    ..old(self).cpu@.bus
                },
                ..old(self).cpu@
            }),
            final(self).rom == old(self).rom,
    {
        self.cpu.bus.mapper.device2_mut()
    }

    /// Connects a controller of `device_type` for port `port` (1 or 2). The board's port 1
    /// gets a fresh controller; for port 2 the board is handed the controller already in
    /// port 1, which must be there.
    pub fn connect_input_device(&mut self, port: u8, device_type: NESDeviceType)
        requires
            1 <= port <= 2,
            port == 2 ==> old(self).cpu.bus.mapper.device1.is_some(),
        ensures
            final(self).cpu@ == (CpuState {
                bus: BusView {
                    mapper: if port == 1 {
                        mapper::mapper000::MapperView {
                            device1: Some(input_device::joypad::Joypad::initial()),
                            ..old(self).cpu@.bus.mapper
                        }
                    } else {
                        mapper::mapper000::MapperView {
                            device2: old(self).cpu@.bus.mapper.device1,
                            ..old(self).cpu@.bus.mapper
                        }
                    },
                    ..old(self).cpu@.bus
                },
                ..old(self).cpu@
            }),
            final(self).rom == old(self).rom,
    {
        let fresh = input_device::new_device(device_type);
        let device = if port == 1 {
            fresh
        } else {
            *self.cpu.bus.mapper.device1()
        };
        self.cpu.bus.mapper.connect_input_device(port, device);
    }
}

} // verus!
