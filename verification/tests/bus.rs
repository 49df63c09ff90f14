use nes::cartridge::{Mirroring, ROMRegion, Rom, CHR_ROM_PAGE_SIZE, PRG_ROM_PAGE_SIZE};
use nes::tools::NESAccess;
use nes::NES;

fn test_rom(mut prg_rom: Vec<u8>) -> Rom {
    prg_rom.resize(2 * PRG_ROM_PAGE_SIZE, 0x00);
    prg_rom[0x7FFC] = 0x00;
    prg_rom[0x7FFD] = 0x80;

    Rom {
        ines_ver: 1,
        mapper: 0,
        submapper: 0,
        region: ROMRegion::NTSC,
        prg_rom,
        prg_ram_size: 0,
        prg_nvram_size: 0,
        chr_rom: vec![0x00; 1 * CHR_ROM_PAGE_SIZE],
        chr_ram_size: 0,
        chr_nvram_size: 0,
        screen_mirroring: Mirroring::Horizontal,
        uses_bat_mem: false,
    }
}

fn setup_nes() -> NES {
    NES::new(test_rom(vec![]))
}

#[test]
fn test_mem_read_write_to_ram() {
    let mut nes: NES = setup_nes();
    nes.bus_mut().write(0x0001, 0x55);

    assert_eq!(nes.bus_mut().read(0x0001), 0x55);
}
