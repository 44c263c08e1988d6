use nes_emulator::ppu::Ppu;
use nes_emulator::screen::Screen;

fn ppu() -> Ppu {
    Ppu::new(Screen::new())
}

#[test]
fn hjoge() {
    let p = ppu();
    assert_eq!(p.dot(), 0);
    assert_eq!(p.line(), 0);
    assert_eq!(p.frames, 0);
    assert_eq!(p.register.ppustatus, 0);
}

#[test]
fn vram_write_then_buffered_read() {
    let mut p = ppu();
    p.write_register(0x2006, 0x20);
    p.write_register(0x2006, 0x00);
    assert_eq!(p.vram_addr(), 0x2000);
    p.write_register(0x2007, 0xAB);
    p.write_register(0x2006, 0x20);
    p.write_register(0x2006, 0x00);
    p.read_register(0x2007);
    assert_eq!(p.read_register(0x2007), 0xAB);
    assert_eq!(p.vram_addr(), 0x2002);
}

#[test]
fn palette_reads_are_immediate_and_mirrored() {
    let mut p = ppu();
    p.write_register(0x2006, 0x3F);
    p.write_register(0x2006, 0x10);
    p.write_register(0x2007, 0x2A);
    assert_eq!(p.read_vram(0x3F00), 0x2A);
    p.write_register(0x2006, 0x3F);
    p.write_register(0x2006, 0x00);
    assert_eq!(p.read_register(0x2007), 0x2A);
}

#[test]
fn increment_by_32() {
    let mut p = ppu();
    p.write_register(0x2000, 0x04);
    p.write_register(0x2006, 0x20);
    p.write_register(0x2006, 0x00);
    p.write_register(0x2007, 1);
    assert_eq!(p.vram_addr(), 0x2020);
}

#[test]
fn name_table_mirroring() {
    let mut p = ppu();
    p.write_vram(0x2005, 9);
    assert_eq!(p.read_vram(0x2405), 9);
    assert_eq!(p.read_vram(0x3005), 9);
    assert_eq!(p.read_vram(0x2805), 0);
    p.write_vram(0x2C01, 4);
    assert_eq!(p.read_vram(0x2801), 4);
    p.write_vram(0x0010, 4);
    assert_eq!(p.read_vram(0x0010), 0);
}

#[test]
fn one_frame_minus_one_dot() {
    let mut p = ppu();
    p.write_register(0x2000, 0x80);
    assert!(p.run(89342));
    assert_eq!(p.frames, 0);
    assert_eq!(p.line(), 261);
    assert_eq!(p.dot(), 340);
    assert_eq!(p.register.ppustatus & 0x80, 0);
    assert!(!p.run(1));
    assert_eq!(p.frames, 1);
    assert_eq!(p.line(), 0);
    assert_eq!(p.dot(), 0);
}

#[test]
fn status_read_clears_vblank_and_toggle() {
    let mut p = ppu();
    assert!(!p.run(241 * 341 + 3));
    assert_eq!(p.line(), 241);
    assert_eq!(p.dot(), 2);
    p.write_register(0x2006, 0x3F);
    assert_ne!(p.read_register(0x2002) & 0x80, 0);
    assert_eq!(p.read_register(0x2002) & 0x80, 0);
    p.write_register(0x2006, 0x21);
    p.write_register(0x2006, 0x08);
    assert_eq!(p.vram_addr(), 0x2108);
}

#[test]
fn frame_composition() {
    let mut p = ppu();
    let mut chr = vec![0u8; 0x2000];
    chr[16] = 0x80;
    chr[24] = 0x40;
    p.load_pattern_table(chr);
    p.write_vram(0x2000, 1);
    p.write_vram(0x3F00, 0x0F);
    p.write_vram(0x3F01, 0x16);
    p.write_vram(0x3F02, 0x27);
    p.write_vram(0x3F0D, 0x30);
    p.write_vram(0x3F0E, 0x21);
    p.write_vram(0x23C0, 0x0C);
    p.write_vram(0x2002, 1);
    p.run(240 * 341 + 1);
    let s = &p.ppu_bus.screen.screen;
    assert_eq!(s.len(), 256 * 240);
    assert_eq!(s[0], 0x16);
    assert_eq!(s[1], 0x27);
    assert_eq!(s[2], 0x0F);
    assert_eq!(s[16], 0x30);
    assert_eq!(s[17], 0x21);
    assert_eq!(s[18], 0x0F);
}

#[test]
fn image_conversion() {
    let s = Screen::new();
    let mut rows = vec![vec![0u8; 256]; 240];
    rows[0][1] = 0x3F;
    let img = s.convert_screen_to_image(rows);
    assert_eq!(img.len(), 256 * 240 * 4);
    assert_eq!(&img[4..8], &[0x30, 0x0C, 0x03, 255]);
    assert_eq!(&img[0..4], &[0, 0, 0, 255]);
}
