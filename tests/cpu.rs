use nes_emulator::cpu::op::{decode_op, AddressingMode, Instruction, OpCode};
use nes_emulator::cpu::Cpu;
use nes_emulator::cpu_bus::CpuBus;
use nes_emulator::error::NesError;
use nes_emulator::nes::NES;
use nes_emulator::ppu::Ppu;
use nes_emulator::screen::Screen;
use nes_emulator::wram::WRAM;

/// An NROM image with one program page holding `code` at $8000 + offset for each
/// chunk, the reset vector at `reset` and the NMI vector at `nmi`.
fn image(chunks: &[(u16, &[u8])], reset: u16, nmi: u16) -> Vec<u8> {
    let mut prg = vec![0xEAu8; 0x4000];
    for (addr, code) in chunks {
        let base = (*addr as usize - 0x8000) % 0x4000;
        prg[base..base + code.len()].copy_from_slice(code);
    }
    prg[0x3FFA] = (nmi & 0xFF) as u8;
    prg[0x3FFB] = (nmi >> 8) as u8;
    prg[0x3FFC] = (reset & 0xFF) as u8;
    prg[0x3FFD] = (reset >> 8) as u8;
    prg[0x3FFE] = 0x00;
    prg[0x3FFF] = 0xA0;
    let mut out = vec![0x4E, 0x45, 0x53, 0x1A, 1, 1, 0, 0, 0, 0, 0, 0, 0, 0, 0, 0];
    out.extend_from_slice(&prg);
    out.extend(vec![0u8; 0x2000]);
    out
}

fn machine(code: &[u8]) -> NES {
    NES::load(image(&[(0x8000, code)], 0x8000, 0x9000)).unwrap()
}

fn steps(nes: &mut NES, n: usize) -> Vec<usize> {
    (0..n).map(|_| nes.next().unwrap()).collect()
}

#[test]
fn tests_it_works() {
    let wram = WRAM::new();
    let ppu = Ppu::new(Screen::new());
    let mut prog = vec![0xEAu8; 0x4000];
    prog[0] = 0xA2;
    prog[1] = 0x05;
    prog[0x3FFC] = 0x00;
    prog[0x3FFD] = 0x80;
    let mut cpu_bus = CpuBus::new(wram, ppu, prog);
    let mut cpu = Cpu::new();
    cpu.reset(&mut cpu_bus);
    assert_eq!(cpu.register.pc, 0x8000);
    assert_eq!(cpu.register.s, 0xFD);
    assert!(cpu.register.p.interrupt);
    assert!(cpu.register.p.reserved);
    assert!(!cpu.register.p.breakm);
    assert_eq!(cpu.run(&mut cpu_bus), Ok(2));
    assert_eq!(cpu.register.x, 5);
    assert_eq!(cpu.register.pc, 0x8002);
}

#[test]
fn lda_immediate_after_reset() {
    let mut nes = machine(&[0xA9, 0x42]);
    assert_eq!(nes.cpu().register.pc, 0x8000);
    assert_eq!(nes.next(), Ok(2));
    let r = nes.cpu().register;
    assert_eq!(r.a, 0x42);
    assert!(!r.p.negative);
    assert!(!r.p.zero);
    assert_eq!(r.pc, 0x8002);
}

#[test]
fn beq_skips_instruction() {
    let mut nes = machine(&[0xA9, 0x00, 0xF0, 0x02, 0xA9, 0xFF, 0x00]);
    assert_eq!(steps(&mut nes, 2), vec![2, 3]);
    assert_eq!(nes.cpu().register.pc, 0x8006);
    assert_eq!(nes.cpu().register.a, 0);
}

#[test]
fn adc_signed_overflow() {
    let mut nes = machine(&[0x18, 0xA9, 0x7F, 0x69, 0x01]);
    steps(&mut nes, 3);
    let r = nes.cpu().register;
    assert_eq!(r.a, 0x80);
    assert!(r.p.negative);
    assert!(r.p.overflow);
    assert!(!r.p.carry);
    assert!(!r.p.zero);
}

#[test]
fn adc_carry_out_and_sbc_borrow() {
    // SEC; LDA #$FF; ADC #$01 -> A = 1, C = 1; SEC; SBC #$02 -> A = $FF, C = 0
    let mut nes = machine(&[0x38, 0xA9, 0xFF, 0x69, 0x01, 0x38, 0xE9, 0x02]);
    steps(&mut nes, 3);
    assert_eq!(nes.cpu().register.a, 0x01);
    assert!(nes.cpu().register.p.carry);
    steps(&mut nes, 2);
    let r = nes.cpu().register;
    assert_eq!(r.a, 0xFF);
    assert!(!r.p.carry);
    assert!(r.p.negative);
    assert!(!r.p.overflow);
}

#[test]
fn pha_pla_round_trip() {
    // LDA #$80; PHA; LDA #$00; PLA
    let mut nes = machine(&[0xA9, 0x80, 0x48, 0xA9, 0x00, 0x68]);
    assert_eq!(steps(&mut nes, 4), vec![2, 3, 2, 4]);
    let r = nes.cpu().register;
    assert_eq!(r.a, 0x80);
    assert!(r.p.negative);
    assert!(!r.p.zero);
    assert_eq!(r.s, 0xFD);
}

#[test]
fn php_plp_round_trip() {
    // SEC; SED; PHP; CLC; CLD; PLP
    let mut nes = machine(&[0x38, 0xF8, 0x08, 0x18, 0xD8, 0x28]);
    steps(&mut nes, 3);
    assert_eq!(nes.bus().read(0x01FD), 0x3D);
    steps(&mut nes, 3);
    let r = nes.cpu().register;
    assert!(r.p.carry);
    assert!(r.p.decimal);
    assert!(r.p.interrupt);
    assert!(r.p.reserved);
    assert!(!r.p.breakm);
    assert_eq!(r.s, 0xFD);
}

#[test]
fn sta_lda_zero_page_round_trip() {
    // LDA #$5A; STA $10; LDA #$00; LDA $10
    let mut nes = machine(&[0xA9, 0x5A, 0x85, 0x10, 0xA9, 0x00, 0xA5, 0x10]);
    steps(&mut nes, 4);
    assert_eq!(nes.cpu().register.a, 0x5A);
    assert_eq!(nes.bus().read(0x0010), 0x5A);
}

#[test]
fn branch_cycles_same_page_and_cross() {
    // at $80F0: LDA #$01; BNE +$10 -> $8104 (other page); BEQ not taken
    let code = [0xA9, 0x01, 0xD0, 0x10];
    let mut nes = NES::load(image(&[(0x80F0, &code), (0x8104, &[0xF0, 0x05, 0xD0, 0x02])], 0x80F0, 0x9000)).unwrap();
    assert_eq!(steps(&mut nes, 2), vec![2, 4]);
    assert_eq!(nes.cpu().register.pc, 0x8104);
    assert_eq!(steps(&mut nes, 1), vec![2]);
    assert_eq!(nes.cpu().register.pc, 0x8106);
    assert_eq!(steps(&mut nes, 1), vec![3]);
    assert_eq!(nes.cpu().register.pc, 0x810A);
}

#[test]
fn branch_backwards() {
    // LDX #$03; loop: DEX; BNE loop
    let mut nes = machine(&[0xA2, 0x03, 0xCA, 0xD0, 0xFD]);
    assert_eq!(steps(&mut nes, 7), vec![2, 2, 3, 2, 3, 2, 2]);
    assert_eq!(nes.cpu().register.x, 0);
    assert_eq!(nes.cpu().register.pc, 0x8005);
}

#[test]
fn zero_page_x_wraps() {
    // LDA #$37; STA $00; LDA #$99; STA $0100; LDX #$01; LDA $FF,X
    let mut nes = machine(&[0xA9, 0x37, 0x85, 0x00, 0xA9, 0x99, 0x8D, 0x00, 0x01, 0xA2, 0x01, 0xB5, 0xFF]);
    let c = steps(&mut nes, 6);
    assert_eq!(c[5], 4);
    assert_eq!(nes.cpu().register.a, 0x37);
}

#[test]
fn indirect_indexed_zero_page_wrap() {
    let mut nes = machine(&[0xA2, 0x00, 0xA0, 0x01, 0xB1, 0xFF]);
    {
        let bus = nes.bus();
        bus.write(0x00FF, 0x34);
        bus.write(0x0000, 0x02);
        bus.write(0x0100, 0x07);
        bus.write(0x0235, 0x5A);
        bus.write(0x0735, 0x11);
    }
    let c = steps(&mut nes, 3);
    assert_eq!(c[2], 5);
    assert_eq!(nes.cpu().register.a, 0x5A);
}

#[test]
fn indirect_indexed_page_cross_cycle() {
    // LDY #$FF; LDA ($10),Y with pointer $0201 -> $0300 crosses a page
    let mut nes = machine(&[0xA0, 0xFF, 0xB1, 0x10]);
    {
        let bus = nes.bus();
        bus.write(0x0010, 0x01);
        bus.write(0x0011, 0x02);
        bus.write(0x0300, 0x66);
    }
    assert_eq!(steps(&mut nes, 2), vec![2, 6]);
    assert_eq!(nes.cpu().register.a, 0x66);
}

#[test]
fn absolute_x_page_cross_read_and_store() {
    // LDX #$01; LDA $02FF,X (crosses) ; STA $02FF,X (no extra cycle)
    let mut nes = machine(&[0xA2, 0x01, 0xBD, 0xFF, 0x02, 0x9D, 0xFF, 0x02]);
    nes.bus().write(0x0300, 0x21);
    assert_eq!(steps(&mut nes, 3), vec![2, 5, 5]);
    assert_eq!(nes.cpu().register.a, 0x21);
}

#[test]
fn indexed_indirect_wraps_in_zero_page() {
    // LDX #$01; LDA ($FE,X) -> pointer at $FF/$00
    let mut nes = machine(&[0xA2, 0x01, 0xA1, 0xFE]);
    {
        let bus = nes.bus();
        bus.write(0x00FF, 0x00);
        bus.write(0x0000, 0x03);
        bus.write(0x0300, 0x44);
    }
    assert_eq!(steps(&mut nes, 2), vec![2, 6]);
    assert_eq!(nes.cpu().register.a, 0x44);
}

#[test]
fn jmp_indirect_page_bug() {
    let mut nes = machine(&[0x6C, 0xFF, 0x02]);
    {
        let bus = nes.bus();
        bus.write(0x02FF, 0x00);
        bus.write(0x0200, 0x90);
        bus.write(0x0300, 0x80);
    }
    assert_eq!(steps(&mut nes, 1), vec![5]);
    assert_eq!(nes.cpu().register.pc, 0x9000);
}

#[test]
fn jsr_rts() {
    // JSR $8010 ; at $8010: LDA #$07; RTS ; back at $8003
    let mut nes = NES::load(image(&[(0x8000, &[0x20, 0x10, 0x80]), (0x8010, &[0xA9, 0x07, 0x60])], 0x8000, 0x9000)).unwrap();
    assert_eq!(steps(&mut nes, 1), vec![6]);
    assert_eq!(nes.cpu().register.pc, 0x8010);
    assert_eq!(nes.cpu().register.s, 0xFB);
    assert_eq!(nes.bus().read(0x01FD), 0x80);
    assert_eq!(nes.bus().read(0x01FC), 0x02);
    assert_eq!(steps(&mut nes, 2), vec![2, 6]);
    assert_eq!(nes.cpu().register.pc, 0x8003);
    assert_eq!(nes.cpu().register.s, 0xFD);
    assert_eq!(nes.cpu().register.a, 0x07);
}

#[test]
fn compare_flags() {
    // LDA #$10; CMP #$20 ; CMP #$10 ; CMP #$05
    let mut nes = machine(&[0xA9, 0x10, 0xC9, 0x20, 0xC9, 0x10, 0xC9, 0x05]);
    steps(&mut nes, 2);
    let p = nes.cpu().register.p;
    assert!(!p.carry && !p.zero && p.negative);
    steps(&mut nes, 1);
    let p = nes.cpu().register.p;
    assert!(p.carry && p.zero && !p.negative);
    steps(&mut nes, 1);
    let p = nes.cpu().register.p;
    assert!(p.carry && !p.zero && !p.negative);
}

#[test]
fn shifts_and_rotates() {
    // LDA #$81; ASL A -> $02 C=1; ROL A -> $05 C=0; LSR A -> $02 C=1; ROR A -> $81 C=0
    let mut nes = machine(&[0xA9, 0x81, 0x0A, 0x2A, 0x4A, 0x6A]);
    steps(&mut nes, 2);
    assert_eq!(nes.cpu().register.a, 0x02);
    assert!(nes.cpu().register.p.carry);
    steps(&mut nes, 1);
    assert_eq!(nes.cpu().register.a, 0x05);
    assert!(!nes.cpu().register.p.carry);
    steps(&mut nes, 1);
    assert_eq!(nes.cpu().register.a, 0x02);
    assert!(nes.cpu().register.p.carry);
    steps(&mut nes, 1);
    assert_eq!(nes.cpu().register.a, 0x81);
    assert!(!nes.cpu().register.p.carry);
    assert!(nes.cpu().register.p.negative);
}

#[test]
fn memory_increment_and_bit() {
    // INC $20 (from $FF wraps to 0); BIT $21 with $C0
    let mut nes = machine(&[0xE6, 0x20, 0xA9, 0x01, 0x24, 0x21]);
    nes.bus().write(0x0020, 0xFF);
    nes.bus().write(0x0021, 0xC0);
    assert_eq!(steps(&mut nes, 1), vec![5]);
    assert_eq!(nes.bus().read(0x0020), 0x00);
    assert!(nes.cpu().register.p.zero);
    steps(&mut nes, 2);
    let p = nes.cpu().register.p;
    assert!(p.negative && p.overflow && p.zero);
}

#[test]
fn transfers() {
    // LDX #$80; TXA; TAY; TSX; LDX #$40; TXS
    let mut nes = machine(&[0xA2, 0x80, 0x8A, 0xA8, 0xBA, 0xA2, 0x40, 0x9A]);
    steps(&mut nes, 3);
    assert_eq!(nes.cpu().register.y, 0x80);
    steps(&mut nes, 1);
    assert_eq!(nes.cpu().register.x, 0xFD);
    steps(&mut nes, 2);
    assert_eq!(nes.cpu().register.s, 0x40);
    assert!(!nes.cpu().register.p.negative);
}

#[test]
fn illegal_opcode_is_reported() {
    let mut nes = machine(&[0x02]);
    assert_eq!(nes.next(), Err(NesError::IllegalOpcode(0x02)));
    assert_eq!(decode_op(0xFF), Err(NesError::IllegalOpcode(0xFF)));
}

#[test]
fn decode_table_entries() {
    assert_eq!(decode_op(0xA9), Ok(Instruction(OpCode::LDA, AddressingMode::Immediate, 2)));
    assert_eq!(decode_op(0x6C), Ok(Instruction(OpCode::JMP, AddressingMode::AbsoluteIndirect, 5)));
    assert_eq!(decode_op(0x9D), Ok(Instruction(OpCode::STA, AddressingMode::AbsoluteX, 5)));
    assert_eq!(decode_op(0x00), Ok(Instruction(OpCode::BRK, AddressingMode::Implied, 7)));
    let legal = (0u16..256).filter(|b| decode_op(*b as u8).is_ok()).count();
    assert_eq!(legal, 151);
}

#[test]
fn brk_inhibited_then_taken() {
    // BRK while I is set does nothing but fetch; CLI; BRK enters the vector at $FFFE
    let mut nes = machine(&[0x00, 0x58, 0x00]);
    assert_eq!(steps(&mut nes, 1), vec![7]);
    assert_eq!(nes.cpu().register.pc, 0x8001);
    assert_eq!(nes.cpu().register.s, 0xFD);
    steps(&mut nes, 2);
    let r = nes.cpu().register;
    assert_eq!(r.pc, 0xA000);
    assert_eq!(r.s, 0xFA);
    assert!(r.p.interrupt);
    assert_eq!(nes.bus().read(0x01FD), 0x80);
    assert_eq!(nes.bus().read(0x01FC), 0x04);
    assert_eq!(nes.bus().read(0x01FB), 0x30);
}

#[test]
fn nmi_at_vblank() {
    // LDA #$80; STA $2000; loop: JMP loop ; NMI handler at $9000
    let code = [0xA9, 0x80, 0x8D, 0x00, 0x20, 0x4C, 0x05, 0x80];
    let mut nes = machine(&code);
    let mut reached = false;
    for _ in 0..20000 {
        nes.next().unwrap();
        if nes.cpu().register.pc == 0x9000 {
            reached = true;
            break;
        }
    }
    assert!(reached);
    let r = nes.cpu().register;
    assert_eq!(r.s, 0xFA);
    assert!(!nes.cpu().interrupts.nmi);
    assert_eq!(nes.bus().read(0x01FB) & 0x10, 0);
    assert_eq!(nes.ppu().line(), 241);
}
