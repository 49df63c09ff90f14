use nes::bus::mapper::nrom::NROM;
use nes::bus::mapper::{init_mapper, Mapper};
use nes::bus::Bus;
use nes::cartridge::{Mirroring, ROMRegion, Rom, RomError, CHR_ROM_PAGE_SIZE, PRG_ROM_PAGE_SIZE};
use nes::cpu::addr::AddressingMode;
use nes::cpu::instr;
use nes::cpu::opcode::{decode_opcode, lookup_opcode, Instruction};
use nes::input_device::{NESDevice, NESDeviceType};
use nes::mapper::mapper000::Mapper000;
use nes::memory::Memory;
use nes::ppu::registers::addr::AddrRegister;
use nes::ppu::renderer::Renderer;
use nes::ppu::PPU;
use nes::tools;
use nes::tools::NESAccess;
use nes::NES;

const CARRY: u8 = 0b0000_0001;
const ZERO: u8 = 0b0000_0010;
const INTERRUPT_DISABLE: u8 = 0b0000_0100;
const OVERFLOW: u8 = 0b0100_0000;
const NEGATIVE: u8 = 0b1000_0000;

/// A 32 KiB cartridge whose program starts at $8000, with extra bytes patched in at
/// PRG-ROM offsets.
fn rom_with(program: Vec<u8>, patches: &[(usize, u8)]) -> Rom {
    let mut prg_rom: Vec<u8> = program;
    prg_rom.resize(2 * PRG_ROM_PAGE_SIZE, 0x00);
    prg_rom[0x7FFC] = 0x00;
    prg_rom[0x7FFD] = 0x80;
    for (offset, byte) in patches {
        prg_rom[*offset] = *byte;
    }
    Rom {
        ines_ver: 1,
        mapper: 0,
        submapper: 0,
        region: ROMRegion::NTSC,
        prg_rom,
        prg_ram_size: 0,
        prg_nvram_size: 0,
        chr_rom: vec![0x00; CHR_ROM_PAGE_SIZE],
        chr_ram_size: 0,
        chr_nvram_size: 0,
        screen_mirroring: Mirroring::Horizontal,
        uses_bat_mem: false,
    }
}

fn run_program(program: Vec<u8>) -> NES {
    let mut nes: NES = NES::new(rom_with(program, &[]));
    nes.run();
    nes
}

fn ppu_for_tests() -> PPU {
    let memory: Memory = Memory {
        cpu_vram: [0x00; 2048],
        prg_rom: vec![],
        prg_ram: vec![],
        chr_mem: vec![0x00; CHR_ROM_PAGE_SIZE],
        use_chr_ram: false,
    };
    let mut ppu: PPU = PPU::new(memory, Mirroring::Horizontal);
    ppu.cycles = 9886;
    ppu
}

fn header(flags: [u8; 12]) -> Vec<u8> {
    let mut raw: Vec<u8> = vec![0x4E, 0x45, 0x53, 0x1A];
    raw.extend_from_slice(&flags);
    raw
}

#[test]
fn adc_sets_overflow_on_signed_overflow() {
    // LDA #$50; ADC #$50; KIL
    let nes: NES = run_program(vec![0xA9, 0x50, 0x69, 0x50, 0x02]);
    let p: u8 = nes.cpu.status.bits();
    assert_eq!(nes.cpu.accumulator, 0xA0);
    assert_eq!(p & OVERFLOW, OVERFLOW);
    assert_eq!(p & CARRY, 0);
    assert_eq!(p & NEGATIVE, NEGATIVE);
    assert_eq!(p & ZERO, 0);
}

#[test]
fn adc_carries_out_of_bit_7() {
    // LDA #$FF; ADC #$01; KIL
    let nes: NES = run_program(vec![0xA9, 0xFF, 0x69, 0x01, 0x02]);
    let p: u8 = nes.cpu.status.bits();
    assert_eq!(nes.cpu.accumulator, 0x00);
    assert_eq!(p & CARRY, CARRY);
    assert_eq!(p & ZERO, ZERO);
    assert_eq!(p & OVERFLOW, 0);
}

#[test]
fn sbc_borrows_without_overflow() {
    // SEC; LDA #$50; SBC #$F0; KIL
    let nes: NES = run_program(vec![0x38, 0xA9, 0x50, 0xE9, 0xF0, 0x02]);
    let p: u8 = nes.cpu.status.bits();
    assert_eq!(nes.cpu.accumulator, 0x60);
    assert_eq!(p & CARRY, 0);
    assert_eq!(p & OVERFLOW, 0);
}

#[test]
fn sbc_sets_overflow_on_signed_overflow() {
    // SEC; LDA #$50; SBC #$B0; KIL
    let nes: NES = run_program(vec![0x38, 0xA9, 0x50, 0xE9, 0xB0, 0x02]);
    let p: u8 = nes.cpu.status.bits();
    assert_eq!(nes.cpu.accumulator, 0xA0);
    assert_eq!(p & CARRY, 0);
    assert_eq!(p & OVERFLOW, OVERFLOW);
}

#[test]
fn sbc_without_borrow_keeps_carry() {
    // SEC; LDA #$05; SBC #$03; KIL
    let nes: NES = run_program(vec![0x38, 0xA9, 0x05, 0xE9, 0x03, 0x02]);
    assert_eq!(nes.cpu.accumulator, 0x02);
    assert_eq!(nes.cpu.status.bits() & CARRY, CARRY);
}

#[test]
fn pha_pla_round_trip() {
    // LDA #$42; PHA; LDA #$00; PLA; KIL
    let nes: NES = run_program(vec![0xA9, 0x42, 0x48, 0xA9, 0x00, 0x68, 0x02]);
    assert_eq!(nes.cpu.accumulator, 0x42);
    assert_eq!(nes.cpu.stack_pointer, 0xFD);
}

#[test]
fn jsr_rts_round_trip() {
    // $8000 JSR $8005; $8003 KIL; $8005 LDX #$07; $8007 RTS
    let nes: NES = run_program(vec![0x20, 0x05, 0x80, 0x02, 0xEA, 0xA2, 0x07, 0x60]);
    assert_eq!(nes.cpu.index_x, 0x07);
    assert_eq!(nes.cpu.stack_pointer, 0xFD);
    assert_eq!(nes.cpu.program_counter, 0x8004);
}

#[test]
fn brk_rti_round_trip() {
    // $8000 CLI; $8001 BRK; $8002 KIL; handler at $8010: RTI; vector $FFFA -> $8010
    let mut program: Vec<u8> = vec![0x58, 0x00, 0x02];
    program.resize(0x10, 0xEA);
    program.push(0x40);
    let mut nes: NES = NES::new(rom_with(program, &[(0x7FFA, 0x10), (0x7FFB, 0x80)]));
    nes.run();
    assert_eq!(nes.cpu.stack_pointer, 0xFD);
    assert_eq!(nes.cpu.status.bits() & INTERRUPT_DISABLE, 0);
    assert_eq!(nes.cpu.program_counter, 0x8003);
}

#[test]
fn kil_halts_and_step_reports_it() {
    let mut nes: NES = NES::new(rom_with(vec![0xE8, 0x02], &[]));
    nes.cpu.start();
    assert!(nes.step());
    assert!(nes.step());
    assert!(!nes.step());
    assert_eq!(nes.cpu.index_x, 1);
    assert!(!nes.cpu.running);
}

#[test]
fn ram_mirrors_every_2k() {
    let mut nes: NES = NES::new(rom_with(vec![0x02], &[]));
    nes.bus_mut().write(0x0001, 0x55);
    assert_eq!(nes.bus_mut().read(0x0801), 0x55);
    assert_eq!(nes.bus_mut().read(0x1001), 0x55);
    assert_eq!(nes.bus_mut().read(0x1801), 0x55);
    nes.bus_mut().write(0x1FFF, 0x66);
    assert_eq!(nes.bus_mut().read(0x07FF), 0x66);
}

#[test]
fn bus_words_are_little_endian() {
    let mut nes: NES = NES::new(rom_with(vec![0x02], &[]));
    nes.bus_mut().write_u16(0x0010, 0xBEEF);
    assert_eq!(nes.bus_mut().read(0x0010), 0xEF);
    assert_eq!(nes.bus_mut().read(0x0011), 0xBE);
    assert_eq!(nes.bus_mut().read_u16(0x0010), 0xBEEF);
}

#[test]
fn small_prg_rom_is_mirrored() {
    let mut prg_rom: Vec<u8> = vec![0x00; PRG_ROM_PAGE_SIZE];
    prg_rom[0x0010] = 0xAB;
    prg_rom[0x3FFC] = 0x00;
    prg_rom[0x3FFD] = 0x80;
    let mut rom: Rom = rom_with(vec![], &[]);
    rom.prg_rom = prg_rom;
    let mut nes: NES = NES::new(rom);
    assert_eq!(nes.cpu.program_counter, 0x8000);
    assert_eq!(nes.bus_mut().read(0x8010), 0xAB);
    assert_eq!(nes.bus_mut().read(0xC010), 0xAB);
}

#[test]
fn new_loads_reset_vector_and_power_up_state() {
    let nes: NES = NES::new(rom_with(vec![], &[(0x7FFC, 0x34), (0x7FFD, 0x12)]));
    assert_eq!(nes.cpu.program_counter, 0x1234);
    assert_eq!(nes.cpu.stack_pointer, 0xFD);
    assert_eq!(nes.cpu.status.bits(), 0b0010_0100);
    assert!(!nes.cpu.running);
}

#[test]
fn reset_moves_stack_and_disables_interrupts() {
    let mut nes: NES = NES::new(rom_with(vec![0x02], &[]));
    nes.cpu.status = nes::cpu::Flags::from_bits_truncate(0);
    nes.reset();
    assert_eq!(nes.cpu.stack_pointer, 0xFA);
    assert_eq!(nes.cpu.status.bits() & INTERRUPT_DISABLE, INTERRUPT_DISABLE);
    assert_eq!(nes.cpu.program_counter, 0x8000);
    assert_eq!(nes.cpu.bus.cpu_cycles, 7);
}

#[test]
fn palette_entry_mirrors_read_back() {
    let mut ppu: PPU = ppu_for_tests();
    ppu.write_to_ppu_addr(0x3F);
    ppu.write_to_ppu_addr(0x10);
    ppu.write_to_data(0x2A);
    ppu.write_to_ppu_addr(0x3F);
    ppu.write_to_ppu_addr(0x00);
    assert_eq!(ppu.read_data(), 0x2A);
}

#[test]
fn trace_leaves_registers_alone() {
    let mut nes: NES = NES::new(rom_with(vec![0xA5, 0x10, 0x02], &[]));
    nes.cpu.accumulator = 0x12;
    nes.cpu.index_x = 0x34;
    let line: String = tools::trace(&mut nes.cpu);
    assert_eq!(
        line,
        "8000  A5 10     LDA $10 = 00                    A:12 X:34 Y:00 P:24 SP:FD"
    );
    assert_eq!(nes.cpu.accumulator, 0x12);
    assert_eq!(nes.cpu.index_x, 0x34);
    assert_eq!(nes.cpu.program_counter, 0x8000);
}

#[test]
fn trace_marks_undocumented_and_branches() {
    // $8000 BNE -2 (to $8000); $8002 undocumented NOP $10
    let mut nes: NES = NES::new(rom_with(vec![0xD0, 0xFE, 0x04, 0x10, 0x02], &[]));
    let branch: String = tools::trace(&mut nes.cpu);
    assert_eq!(
        branch,
        "8000  D0 FE     BNE $8000                       A:00 X:00 Y:00 P:24 SP:FD"
    );
    nes.cpu.program_counter = 0x8002;
    let nop: String = tools::trace(&mut nes.cpu);
    assert_eq!(
        nop,
        "8002  04 10    *NOP $10 = 00                    A:00 X:00 Y:00 P:24 SP:FD"
    );
}

#[test]
fn format_mem_dumps_a_line() {
    let mut memory: Vec<u8> = vec![0x41, 0x42, 0x00, 0x7A];
    memory.resize(32, 0x30);
    assert_eq!(
        tools::format_mem(&memory, 0x0000, 0x0003),
        "ADDR   00 01 02 03 04 05 06 07  08 09 0A 0B 0C 0D 0E 0F  ASCII\n-------------------------------------------------------------------------\n0000:  41 42 00 7A                                       AB.z            \n"
    );
}

#[test]
fn format_mem_spans_lines() {
    let mut memory: Vec<u8> = vec![0x41, 0x42, 0x00, 0x7A];
    memory.resize(32, 0x30);
    assert_eq!(
        tools::format_mem(&memory, 0x000E, 0x0011),
        "ADDR   00 01 02 03 04 05 06 07  08 09 0A 0B 0C 0D 0E 0F  ASCII\n-------------------------------------------------------------------------\n0000:                                             30 30                00\n0010:  30 30                                             00              \n"
    );
}

#[test]
fn opcode_table_entries() {
    let lda = decode_opcode(0xA9);
    assert_eq!(lda.instruction, Instruction::LDA);
    assert_eq!(lda.mode, AddressingMode::Immediate);
    assert_eq!(lda.len, 2);
    assert_eq!(lda.cycles, 2);
    assert_eq!(lda.mnemonic, "LDA");
    let jmp = lookup_opcode(0x6C).unwrap();
    assert_eq!(jmp.instruction, Instruction::JMP);
    assert_eq!(jmp.mode, AddressingMode::Indirect);
    assert_eq!(jmp.len, 3);
    assert_eq!(lookup_opcode(0x02).unwrap().instruction, Instruction::KIL);
    for byte in 0..=255u8 {
        let op = decode_opcode(byte);
        assert_eq!(op.byte, byte);
        assert_eq!(op.len, op.mode.bytes());
    }
}

#[test]
fn stand_alone_executor_runs_jumps_and_flags() {
    let mut nes: NES = NES::new(rom_with(vec![0x34, 0x12], &[]));
    let sec = decode_opcode(0x38);
    assert_eq!(instr::execute_instruction(&mut nes.cpu, &sec), 2);
    assert_eq!(nes.cpu.status.bits() & CARRY, CARRY);
    let clc = decode_opcode(0x18);
    instr::execute_instruction(&mut nes.cpu, &clc);
    assert_eq!(nes.cpu.status.bits() & CARRY, 0);
    let jmp = decode_opcode(0x4C);
    assert_eq!(instr::execute_instruction(&mut nes.cpu, &jmp), 3);
    assert_eq!(nes.cpu.program_counter, 0x1234);
}

#[test]
fn nrom_board_keeps_cartridge_memory() {
    let mut rom: Rom = rom_with(vec![0x01, 0x02], &[]);
    rom.prg_ram_size = 8192;
    let mut board: Box<NROM> = init_mapper(rom);
    assert_eq!(board.prg_rom[0], 0x01);
    assert_eq!(board.prg_ram.len(), 8192);
    assert_eq!(board.chr_rom.len(), CHR_ROM_PAGE_SIZE);
    let memory: Memory = Memory {
        cpu_vram: [0x00; 2048],
        prg_rom: vec![],
        prg_ram: vec![],
        chr_mem: vec![0x00; CHR_ROM_PAGE_SIZE],
        use_chr_ram: false,
    };
    let mut bus: Bus = Bus::new(Mapper000::new(PPU::new(memory, Mirroring::Vertical)), Renderer::new());
    assert_eq!(board.read(&mut bus, 0x8000), 0);
}

#[test]
fn controller_is_read_through_the_bus() {
    let mut nes: NES = NES::new(rom_with(vec![0x02], &[]));
    nes.connect_input_device(1, NESDeviceType::Joypad);
    nes.device1_mut().set_button_pressed_status(
        nes::input_device::joypad::JoypadButton::from_bits_truncate(
            nes::input_device::joypad::JoypadButton::BUTTON_B,
        ),
        true,
    );
    nes.bus_mut().write(0x4016, 1);
    nes.bus_mut().write(0x4016, 0);
    assert_eq!(nes.bus_mut().read(0x4016), 0);
    assert_eq!(nes.bus_mut().read(0x4016), 1);
    assert_eq!(nes.bus_mut().read(0x4017), 0);
}

#[test]
fn addr_register_increments_and_splits() {
    let mut addr: AddrRegister = AddrRegister::new();
    addr.set_hi_byte(0x3F);
    addr.set_lo_byte(0xFF);
    assert_eq!(addr.get(), 0x3FFF);
    addr.increment(1);
    assert_eq!(addr.get(), 0x0000);
    addr.set_hi_byte(0x2D);
    addr.set_lo_byte(0x45);
    assert_eq!(addr.get(), 0x2D45);
    assert_eq!(addr.get_nametable(), 0b11);
    assert_eq!(addr.get_coarse_x(), 0x05);
    assert_eq!(addr.get_coarse_y(), 0x0A);
    assert_eq!(addr.get_fine_y(), 0x2);
}

#[test]
fn word_and_page_helpers() {
    assert_eq!(tools::u16_to_bytes(0xABCD), [0xCD, 0xAB]);
    assert_eq!(tools::bytes_to_u16(&[0xCD, 0xAB]), 0xABCD);
    assert_eq!(tools::vec_to_u16(&vec![0x34, 0x12]), 0x1234);
    assert!(tools::page_cross(0x10FF, 0x1100));
    assert!(!tools::page_cross(0x1000, 0x10FF));
    assert_eq!(tools::nth_bit(0b0100, 2), 1);
    assert_eq!(tools::nth_bit(0b0100, 1), 0);
}

#[test]
fn rom_parse_reads_an_ines_1_image() {
    let mut raw: Vec<u8> = header([0x01, 0x01, 0x01, 0x00, 0, 0, 0, 0, 0, 0, 0, 0]);
    raw.extend(vec![0xEA; PRG_ROM_PAGE_SIZE]);
    raw.extend(vec![0x11; CHR_ROM_PAGE_SIZE]);
    assert!(Rom::is_complete(&raw));
    let rom: Rom = Rom::parse(&raw).ok().unwrap();
    assert_eq!(rom.ines_ver, 1);
    assert_eq!(rom.mapper, 0);
    assert_eq!(rom.prg_rom.len(), PRG_ROM_PAGE_SIZE);
    assert_eq!(rom.chr_rom.len(), CHR_ROM_PAGE_SIZE);
    assert_eq!(rom.chr_rom[0], 0x11);
    assert_eq!(rom.screen_mirroring, Mirroring::Vertical);
    assert_eq!(rom.region, ROMRegion::NTSC);
}

#[test]
fn rom_is_complete_spots_short_images() {
    assert!(!Rom::is_complete(&[0x4E, 0x45]));
    let raw: Vec<u8> = header([0x02, 0x01, 0x00, 0x00, 0, 0, 0, 0, 0, 0, 0, 0]);
    assert!(!Rom::is_complete(&raw));
    assert!(Rom::is_complete(&[0x00, 0x01, 0x02, 0x03]));
}

#[test]
fn rom_refusals() {
    let not_ines: Vec<u8> = vec![0x00, 0x45, 0x53, 0x1A, 0, 0, 0, 0];
    assert!(matches!(Rom::parse(&not_ines), Err(RomError::NotINes)));
    assert_eq!(
        Rom::new(&not_ines).err().unwrap(),
        "File is not in iNES file format"
    );
    let alt: Vec<u8> = header([0, 0, 0x08, 0, 0, 0, 0, 0, 0, 0, 0, 0]);
    assert!(matches!(Rom::parse(&alt), Err(RomError::AltNametableLayout)));
    let vs: Vec<u8> = header([0, 0, 0, 0x01, 0, 0, 0, 0, 0, 0, 0, 0]);
    assert!(matches!(Rom::parse(&vs), Err(RomError::VsSystem)));
    let pc10: Vec<u8> = header([0, 0, 0, 0x02, 0, 0, 0, 0, 0, 0, 0, 0]);
    assert!(matches!(Rom::parse(&pc10), Err(RomError::Playchoice10)));
    let bad: Vec<u8> = header([0, 0, 0, 0x03, 0, 0, 0, 0, 0, 0, 0, 0]);
    assert!(matches!(Rom::parse(&bad), Err(RomError::InvalidConsoleType)));
    let famiclone: Vec<u8> = header([0, 0, 0, 0x0B, 0, 0, 0, 0, 0, 0x03, 0, 0x01]);
    assert!(matches!(Rom::parse(&famiclone), Err(RomError::DecimalModeFamiclone)));
    let extended: Vec<u8> = header([0, 0, 0, 0x0B, 0, 0, 0, 0, 0, 0x0E, 0, 0x01]);
    assert!(matches!(Rom::parse(&extended), Err(RomError::InvalidExtendedConsoleType(0x0E))));
    let misc: Vec<u8> = header([0, 0, 0, 0x08, 0, 0, 0, 0, 0, 0, 0x01, 0x01]);
    assert!(matches!(Rom::parse(&misc), Err(RomError::MiscellaneousRoms)));
    let input: Vec<u8> = header([0, 0, 0, 0x08, 0, 0, 0, 0, 0, 0, 0, 0x02]);
    assert!(matches!(Rom::parse(&input), Err(RomError::UnsupportedInputDevice)));
    let dendy: Vec<u8> = header([0, 0, 0, 0x08, 0, 0, 0, 0, 0x03, 0, 0, 0x01]);
    assert!(matches!(Rom::parse(&dendy), Err(RomError::Dendy)));
}

#[test]
fn rom_parse_reads_an_ines_2_image() {
    let mut raw: Vec<u8> = header([0x01, 0x00, 0x10, 0x08, 0x20, 0x00, 0x07, 0x07, 0x01, 0, 0, 0x01]);
    raw.extend(vec![0xEA; PRG_ROM_PAGE_SIZE]);
    let rom: Rom = Rom::parse(&raw).ok().unwrap();
    assert_eq!(rom.ines_ver, 2);
    assert_eq!(rom.mapper, 1);
    assert_eq!(rom.submapper, 2);
    assert_eq!(rom.region, ROMRegion::PAL);
    assert_eq!(rom.prg_ram_size, 64 << 7);
    assert_eq!(rom.chr_ram_size, 64 << 7);
    assert_eq!(rom.chr_rom.len(), 0);
}

#[test]
fn palette_file_colours_a_frame() {
    let bytes: Vec<u8> = (0..192).map(|i| i as u8).collect();
    let palette = nes::ppu::palette::palette_from_bytes(&bytes);
    assert_eq!(palette.len(), 64);
    assert_eq!(palette[1], nes::ppu::palette::RGB(3, 4, 5));
    let colors = nes::ppu::palette::pixel_colors(&[1, 0, 63], &palette);
    assert_eq!(
        colors,
        vec![
            nes::ppu::palette::RGB(3, 4, 5),
            nes::ppu::palette::RGB(0, 1, 2),
            nes::ppu::palette::RGB(189, 190, 191)
        ]
    );
}

#[test]
fn runnable_rom_checks_board_and_vector() {
    assert!(nes::runnable_rom(&rom_with(vec![], &[])));
    let mut other_board: Rom = rom_with(vec![], &[]);
    other_board.mapper = 1;
    assert!(!nes::runnable_rom(&other_board));
    let mut no_chr: Rom = rom_with(vec![], &[]);
    no_chr.chr_rom = vec![];
    no_chr.chr_ram_size = 0;
    assert!(nes::runnable_rom(&no_chr));
    let small: NES = NES::new(no_chr);
    assert_eq!(small.cpu.program_counter, 0x8000);
    assert_eq!(small.cpu.bus.mapper.ppu.memory.chr_mem.len(), 0);
    let mut short_prg: Rom = rom_with(vec![], &[]);
    short_prg.prg_rom = vec![0; 0x2000];
    assert!(!nes::runnable_rom(&short_prg));
}

#[test]
fn text_helpers_format_like_std() {
    let mut v: Vec<char> = vec!['a', 'B', 'z', '1', '{'];
    tools::text::make_ascii_upper(&mut v);
    assert_eq!(v, vec!['A', 'B', 'Z', '1', '{']);
    let mut h: Vec<char> = Vec::new();
    tools::text::push_hex(&mut h, 0x1F, 4);
    tools::text::push_hex(&mut h, 0xABCDE, 2);
    assert_eq!(tools::text::to_text(&h), format!("{:04X}{:02X}", 0x1F, 0xABCDE));
    let mut p: Vec<char> = vec!['x', ' ', ' '];
    tools::text::trim_end(&mut p);
    tools::text::pad(&mut p, 3);
    assert_eq!(p, vec!['x', ' ', ' ']);
}

#[test]
fn background_step_copies_x_on_any_line() {
    let mut ppu: PPU = ppu_for_tests();
    let mut renderer: Renderer = Renderer::new();
    ppu.mask = nes::ppu::registers::MaskRegister::from_bits_truncate(0b0001_1000);
    ppu.scanline = 250;
    ppu.dot = 257;
    ppu.vram_addr.set_hi_byte(0x2B);
    ppu.vram_addr.set_lo_byte(0xFF);
    ppu.temp_addr.set_hi_byte(0x24);
    ppu.temp_addr.set_lo_byte(0x01);
    renderer.background_latch.lo = 0xAA;
    renderer.background_latch.hi = 0x55;
    renderer.tick_background(false, &mut ppu);
    assert_eq!(ppu.vram_addr.get_all(), (0x2BFF & !0x041F) | (0x2401 & 0x041F));
    assert_eq!(renderer.background_shift.lo & 0xFF, 0xAA);
    assert_eq!(renderer.background_shift.hi & 0xFF, 0x55);
    assert_eq!(ppu.dot, 257);
}

#[test]
fn palette_aliases_share_a_cell() {
    let mut ppu: PPU = ppu_for_tests();
    ppu.raw_write_to_data(0x3F14, 0x21);
    assert_eq!(ppu.raw_read_data(0x3F04), 0x21);
    ppu.raw_write_to_data(0x2005, 0x33);
    assert_eq!(ppu.raw_read_data(0x2405), 0x33);
    assert_eq!(ppu.raw_read_data(0x2805), 0x00);
    ppu.raw_write_to_data(0x0010, 0x44);
    assert_eq!(ppu.raw_read_data(0x0010), 0x00);
}

#[test]
fn port_two_is_handed_the_port_one_controller() {
    let mut nes: NES = NES::new(rom_with(vec![0x02], &[]));
    nes.connect_input_device(1, NESDeviceType::Joypad);
    nes.device1_mut().set_button_pressed_status(
        nes::input_device::joypad::JoypadButton::from_bits_truncate(
            nes::input_device::joypad::JoypadButton::BUTTON_B,
        ),
        true,
    );
    nes.connect_input_device(2, NESDeviceType::Joypad);
    nes.bus_mut().write(0x4016, 1);
    nes.bus_mut().write(0x4016, 0);
    assert_eq!(nes.bus_mut().read(0x4017), 0);
    assert_eq!(nes.bus_mut().read(0x4017), 1);
}
