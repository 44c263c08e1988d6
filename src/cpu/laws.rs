use vstd::prelude::*;
use vstd::wrapping::{u16_specs, u8_specs};
use crate::cpu::{
    branch_taken, execute, fetch_byte, fetch_word, is_branch, operand_addr, pack_flags, pages_differ,
    read_at, resolve_operand, unpack_flags, with_nz, word, Cpu, Machine, Operand,
};
use crate::cpu::op::{AddressingMode, Instruction, OpCode};
use crate::cpu_bus::bus_read;

verus! {

/// Each flag of a packed status byte sits in its own bit.
proof fn lemma_flag_bits(x: u8, n: u8, v: u8, b: u8, d: u8, i: u8, z: u8, c: u8)
    by (bit_vector)
    requires
        n == 0 || n == 0x80,
        v == 0 || v == 0x40,
        b == 0 || b == 0x10,
        d == 0 || d == 0x08,
        i == 0 || i == 0x04,
        z == 0 || z == 0x02,
        c == 0 || c == 0x01,
        x == n + v + 0x20 + b + d + i + z + c,
    ensures
        (x & 0x80 != 0) == (n != 0),
        (x & 0x40 != 0) == (v != 0),
        (x & 0x08 != 0) == (d != 0),
        (x & 0x04 != 0) == (i != 0),
        (x & 0x02 != 0) == (z != 0),
        (x & 0x01 != 0) == (c != 0),
{
}

/// Pulling a pushed status byte gives back every flag; B keeps its value and U is
/// set, so a register whose U is set comes back unchanged.
pub proof fn lemma_unpack_pack(p: crate::cpu::StatusRegister, brk: bool)
    requires
        p.reserved,
    ensures
        unpack_flags(p, pack_flags(p, brk)) == p,
{
    let n: u8 = if p.negative { 0x80 } else { 0 };
    let v: u8 = if p.overflow { 0x40 } else { 0 };
    let b: u8 = if brk { 0x10 } else { 0 };
    let d: u8 = if p.decimal { 0x08 } else { 0 };
    let i: u8 = if p.interrupt { 0x04 } else { 0 };
    let z: u8 = if p.zero { 0x02 } else { 0 };
    let c: u8 = if p.carry { 0x01 } else { 0 };
    let x = pack_flags(p, brk);
    assert(x == n + v + 0x20 + b + d + i + z + c);
    lemma_flag_bits(x, n, v, b, d, i, z, c);
}

/// PHA followed by PLA restores A, sets N and Z from it, and leaves S where it
/// was.
pub proof fn lemma_push_pull_accumulator(m: Machine)
    requires
        m.wf(),
    ensures
        ({
            let m1 = execute(m, Instruction(OpCode::PHA, AddressingMode::Implied, 3), Operand::Empty, false).0;
            let m2 = execute(m1, Instruction(OpCode::PLA, AddressingMode::Implied, 4), Operand::Empty, false).0;
            &&& m2.cpu.register.a == m.cpu.register.a
            &&& m2.cpu.register.s == m.cpu.register.s
            &&& m2.cpu.register.p == with_nz(m.cpu.register.p, m.cpu.register.a)
        }),
{
    reveal(bus_read);
}

/// PHP followed by PLP restores every flag (B is pushed as 1 but not pulled) and
/// leaves S where it was.
pub proof fn lemma_push_pull_status(m: Machine)
    requires
        m.wf(),
    ensures
        ({
            let m1 = execute(m, Instruction(OpCode::PHP, AddressingMode::Implied, 3), Operand::Empty, false).0;
            let m2 = execute(m1, Instruction(OpCode::PLP, AddressingMode::Implied, 4), Operand::Empty, false).0;
            &&& m2.cpu.register.p == m.cpu.register.p
            &&& m2.cpu.register.s == m.cpu.register.s
        }),
{
    reveal(bus_read);
    lemma_unpack_pack(m.cpu.register.p, true);
}

/// STA $NN stores A in the zero page, where a later LDA $NN finds it, whatever the
/// CPU's registers have become in between.
pub proof fn lemma_store_load_zero_page(m: Machine, nn: u8, cpu: Cpu)
    requires
        m.wf(),
    ensures
        ({
            let m1 = execute(m, Instruction(OpCode::STA, AddressingMode::Zeropage, 3), Operand::Byte(nn), false).0;
            let m2 = execute(
                Machine { cpu, ..m1 },
                Instruction(OpCode::LDA, AddressingMode::Zeropage, 3),
                Operand::Byte(nn),
                false,
            ).0;
            m2.cpu.register.a == m.cpu.register.a
        }),
{
    reveal(bus_read);
}

/// A branch not taken costs its base cycles and changes nothing; a taken one moves
/// PC to the target and costs one cycle more, or two when the target lies on
/// another page than the next instruction.
pub proof fn lemma_branch_cycles(m: Machine, inst: Instruction, op: Operand, crossed: bool)
    requires
        is_branch(inst.0),
        inst.2 <= 7,
    ensures
        ({
            let (m1, cycles) = execute(m, inst, op, crossed);
            let target = operand_addr(op);
            if branch_taken(inst.0, m.cpu.register.p) {
                &&& m1.cpu.register.pc == target
                &&& cycles == inst.2 + if pages_differ(m.cpu.register.pc, target) {
                    2int
                } else {
                    1int
                }
            } else {
                m1 == m && cycles == inst.2
            }
        }),
{
}

/// Zero-page indexed addressing stays in the zero page: the address is the
/// operand byte plus X (or Y) modulo 256, so $FF plus 1 is $00.
pub proof fn lemma_zero_page_indexed_wraps(m: Machine)
    ensures
        ({
            let (m1, b) = fetch_byte(m);
            let x = m.cpu.register.x;
            let y = m.cpu.register.y;
            &&& resolve_operand(m, AddressingMode::ZeropageX) == (m1, Operand::Byte(((b + x) % 256) as u8), false)
            &&& resolve_operand(m, AddressingMode::ZeropageY) == (m1, Operand::Byte(((b + y) % 256) as u8), false)
            &&& (b == 0xff && x == 1 ==> resolve_operand(m, AddressingMode::ZeropageX).1 == Operand::Byte(0))
        }),
{
    let (m1, b) = fetch_byte(m);
    let x = m.cpu.register.x;
    let y = m.cpu.register.y;
    assert(u8_specs::wrapping_add(b, x) == ((b + x) % 256) as u8);
    assert(u8_specs::wrapping_add(b, y) == ((b + y) % 256) as u8);
}

/// Post-indexed indirect addressing reads its pointer from the zero page at the
/// operand byte and the byte after it modulo 256: at $FF, low from $00FF and high
/// from $0000. The effective address is that pointer plus Y.
pub proof fn lemma_indirect_indexed_zero_page_wrap(m: Machine)
    ensures
        ({
            let (m1, ptr) = fetch_byte(m);
            let (m2, lo) = read_at(m1, ptr as u16);
            let high_addr = ((ptr + 1) % 256) as u16;
            let (m3, hi) = read_at(m2, high_addr);
            let base = word(lo, hi);
            &&& resolve_operand(m, AddressingMode::IndirectIndexed).0 == m3
            &&& resolve_operand(m, AddressingMode::IndirectIndexed).1 == Operand::Word(
                ((base + m.cpu.register.y) % 0x10000) as u16,
            )
            &&& (ptr == 0xff ==> high_addr == 0)
        }),
{
    let (m1, ptr) = fetch_byte(m);
    let (m2, lo) = read_at(m1, ptr as u16);
    let (m3, hi) = read_at(m2, ((ptr + 1) % 256) as u16);
    let base = word(lo, hi);
    let y = m.cpu.register.y;
    assert(u8_specs::wrapping_add(ptr, 1) == ((ptr + 1) % 256) as u8);
    assert(u16_specs::wrapping_add(base, y as u16) == ((base + y) % 0x10000) as u16);
}

/// Indirect JMP keeps the 6502's page bug: the high byte of the target comes from
/// the same page as the low byte, so a pointer at $XXFF reads $XXFF and $XX00.
pub proof fn lemma_absolute_indirect_page_bug(m: Machine)
    ensures
        ({
            let (m1, ptr) = fetch_word(m);
            let (m2, lo) = read_at(m1, ptr);
            let high_addr = ((ptr / 256) * 256 + (ptr % 256 + 1) % 256) as u16;
            let (m3, hi) = read_at(m2, high_addr);
            &&& resolve_operand(m, AddressingMode::AbsoluteIndirect) == (m3, Operand::Word(word(lo, hi)), false)
            &&& (ptr % 256 == 0xff ==> high_addr == ptr - 0xff)
            &&& (ptr % 256 != 0xff ==> high_addr == ptr + 1)
        }),
{
}

} // verus!
