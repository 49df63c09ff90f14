use nes::cartridge::{Mirroring, ROMRegion, Rom, CHR_ROM_PAGE_SIZE, PRG_ROM_PAGE_SIZE};
use nes::tools;
use nes::tools::NESAccess;
use nes::NES;

fn test_rom(mut prg_rom: Vec<u8>) -> Rom {
    prg_rom.resize(2 * PRG_ROM_PAGE_SIZE, 0x00);
    prg_rom[0x7FFC] = 0x00;
    prg_rom[0x7FFD] = 0x80;

    Rom {
        ines_ver: 1,
        mapper: 0,
        submapper: 0,
        region: ROMRegion::NTSC,
        prg_rom,
        prg_ram_size: 0,
        prg_nvram_size: 0,
        chr_rom: vec![0x00; 1 * CHR_ROM_PAGE_SIZE],
        chr_ram_size: 0,
        chr_nvram_size: 0,
        screen_mirroring: Mirroring::Horizontal,
        uses_bat_mem: false,
    }
}

fn setup_nes() -> NES {
    NES::new(test_rom(vec![]))
}

/// Starts the CPU and traces `count` instructions, each just before it executes.
fn trace_run(nes: &mut NES, count: usize) -> Vec<String> {
    let mut result: Vec<String> = vec![];
    nes.cpu.start();
    for _ in 0..count {
        nes.cpu.pre_step();
        result.push(tools::trace(&mut nes.cpu));
        nes.cpu.step();
    }
    result
}

#[test]
fn test_format_trace() {
    let mut nes: NES = setup_nes();

    let bus = nes.bus_mut();
    // LDX #$01
    // DEX
    // DEY
    // BRK
    bus.write(0x0064, 0xA2);
    bus.write(0x0065, 0x01);
    bus.write(0x0066, 0xCA);
    bus.write(0x0067, 0x88);
    bus.write(0x0068, 0x00);

    nes.cpu.program_counter = 0x0064;
    nes.cpu.accumulator = 1;
    nes.cpu.index_x = 2;
    nes.cpu.index_y = 3;

    let result: Vec<String> = trace_run(&mut nes, 3);

    assert_eq!(
        "0064  A2 01     LDX #$01                        A:01 X:02 Y:03 P:24 SP:FD",
        result[0]
    );
    assert_eq!(
        "0066  CA        DEX                             A:01 X:01 Y:03 P:24 SP:FD",
        result[1]
    );
    assert_eq!(
        "0067  88        DEY                             A:01 X:00 Y:03 P:26 SP:FD",
        result[2]
    );
}

#[test]
fn test_format_mem_access() {
    let mut nes: NES = setup_nes();

    let bus = nes.bus_mut();
    // ORA ($33), Y
    bus.write(0x0064, 0x11);
    bus.write(0x0065, 0x33);
    // Data
    bus.write(0x0033, 0x00);
    bus.write(0x0034, 0x04);
    bus.write(0x0400, 0xAA);

    nes.cpu.program_counter = 0x0064;
    nes.cpu.index_y = 0x00;

    let result: Vec<String> = trace_run(&mut nes, 1);

    assert_eq!(
        "0064  11 33     ORA ($33),Y = 0400 @ 0400 = AA  A:00 X:00 Y:00 P:24 SP:FD",
        result[0]
    );
}
