use nes_emulator::cpu_bus::CpuBus;
use nes_emulator::error::NesError;
use nes_emulator::nes::NES;
use nes_emulator::ppu::Ppu;
use nes_emulator::screen::Screen;
use nes_emulator::wram::{WRAMMirror, WRAM};

fn bus_with(prog: Vec<u8>) -> CpuBus {
    CpuBus::new(WRAM::new(), Ppu::new(Screen::new()), prog)
}

#[test]
fn cpu_bus_it_works() {
    let mut prog = vec![0u8; 0x4000];
    prog[0] = 0x11;
    prog[0x3FFF] = 0x22;
    let mut bus = bus_with(prog);
    assert_eq!(bus.write(0x0801, 7), 7);
    assert_eq!(bus.read(0x0001), 7);
    assert_eq!(bus.read(0x1801), 7);
    assert_eq!(bus.read(0x8000), 0x11);
    assert_eq!(bus.read(0xC000), 0x11);
    assert_eq!(bus.read(0xFFFF), 0x22);
    bus.write(0x8000, 0x99);
    assert_eq!(bus.read(0x8000), 0x11);
    bus.write(0x4000, 0x99);
    assert_eq!(bus.read(0x4016), 0);
    assert_eq!(bus.read(0x6000), 0);
}

#[test]
fn thirty_two_kib_rom_is_not_mirrored() {
    let mut prog = vec![0u8; 0x8000];
    prog[0] = 1;
    prog[0x4000] = 2;
    let mut bus = bus_with(prog);
    assert_eq!(bus.read(0x8000), 1);
    assert_eq!(bus.read(0xC000), 2);
}

#[test]
fn ppu_registers_are_mirrored() {
    let mut bus = bus_with(vec![0u8; 0x4000]);
    bus.write(0x3FFE, 0x21);
    bus.write(0x2006, 0x08);
    assert_eq!(bus.ppu().vram_addr(), 0x2108);
    bus.write(0x2007, 0x5C);
    assert_eq!(bus.ppu().read_vram(0x2108), 0x5C);
}

#[test]
fn wram_starts_zeroed() {
    let mut bus = bus_with(vec![0u8; 0x4000]);
    assert_eq!(bus.read(0x07FF), 0);
    let _mirror = WRAMMirror::new();
}

fn header(prg_pages: u8, chr_pages: u8, b6: u8, b7: u8) -> Vec<u8> {
    vec![0x4E, 0x45, 0x53, 0x1A, prg_pages, chr_pages, b6, b7, 0, 0, 0, 0, 0, 0, 0, 0]
}

#[test]
fn parse_splits_rom() {
    let mut img = header(2, 1, 0, 0);
    img.extend((0..0x8000).map(|i| (i % 251) as u8));
    img.extend(vec![0xC3u8; 0x2000]);
    let (prg, chr) = NES::parse(&img).unwrap();
    assert_eq!(prg.len(), 0x8000);
    assert_eq!(prg[300], (300 % 251) as u8);
    assert_eq!(chr, vec![0xC3u8; 0x2000]);
}

#[test]
fn parse_errors() {
    assert_eq!(NES::parse(&vec![0x4E, 0x45]), Err(NesError::BadMagic));
    let mut bad = header(1, 1, 0, 0);
    bad[3] = 0x1B;
    assert_eq!(NES::parse(&bad), Err(NesError::BadMagic));
    assert_eq!(NES::parse(&vec![0x4E, 0x45, 0x53, 0x1A, 1]), Err(NesError::Truncated));
    assert_eq!(NES::parse(&header(1, 1, 0x10, 0)), Err(NesError::UnsupportedMapper));
    assert_eq!(NES::parse(&header(1, 1, 0, 0x10)), Err(NesError::UnsupportedMapper));
    assert_eq!(NES::parse(&header(3, 1, 0, 0)), Err(NesError::UnsupportedMapper));
    assert_eq!(NES::parse(&header(1, 1, 0, 0)), Err(NesError::Truncated));
    assert!(NES::load(header(1, 1, 0x01, 0)).is_err());
}
