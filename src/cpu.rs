use vstd::prelude::*;
use vstd::wrapping::{u16_specs, u8_specs};
use crate::cpu_bus::{bus_read, bus_write, BusView, CpuBus};
use crate::error::NesError;
use op::{decode_op, opcode_table, AddressingMode, Instruction, Interrupt, OpCode};

pub mod laws;
pub mod op;

verus! {

/// The processor status flags, kept as separate booleans and packed into a byte
/// only when they are pushed (bit 7 N, 6 V, 5 U, 4 B, 3 D, 2 I, 1 Z, 0 C).
#[derive(Clone, Copy, Debug, PartialEq, Eq, Structural)]
pub struct StatusRegister {
    pub negative: bool,
    pub overflow: bool,
    /// Unused bit; always set.
    pub reserved: bool,
    pub breakm: bool,
    /// Decimal mode; present but without effect on the NES.
    pub decimal: bool,
    /// IRQ disable.
    pub interrupt: bool,
    pub zero: bool,
    pub carry: bool,
}

impl StatusRegister {
    /// The flags after reset: I and U set, the rest clear.
    pub open spec fn reset_value() -> StatusRegister {
        StatusRegister {
            negative: false,
            overflow: false,
            reserved: true,
            breakm: false,
            decimal: false,
            interrupt: true,
            zero: false,
            carry: false,
        }
    }

    /// The flags after reset.
    pub fn new() -> (r: StatusRegister)
        ensures
            r == StatusRegister::reset_value(),
    {
        StatusRegister {
            negative: false,
            overflow: false,
            reserved: true,
            breakm: false,
            decimal: false,
            interrupt: true,
            zero: false,
            carry: false,
        }
    }
}

/// The register file.
#[derive(Clone, Copy, Debug, PartialEq, Eq, Structural)]
pub struct Register {
    pub a: u8,
    pub x: u8,
    pub y: u8,
    /// Stack pointer; the stack byte it designates is at 0x0100 | s.
    pub s: u8,
    pub p: StatusRegister,
    pub pc: u16,
}

impl Register {
    /// The registers after reset, but for the program counter, which reset loads
    /// from the vector.
    pub open spec fn reset_value() -> Register {
        Register { a: 0, x: 0, y: 0, s: 0xfd, p: StatusRegister::reset_value(), pc: 0 }
    }

    /// The registers after reset, with the program counter still zero.
    pub fn new() -> (r: Register)
        ensures
            r == Register::reset_value(),
    {
        Register { a: 0, x: 0, y: 0, s: 0xfd, p: StatusRegister::new(), pc: 0 }
    }
}

/// Pending interrupt requests.
#[derive(Clone, Copy, Debug, PartialEq, Eq, Structural)]
pub struct Interrupts {
    /// Edge-triggered; set by the PPU, cleared on entry to the NMI handler.
    pub nmi: bool,
    /// Level-triggered; masked by the I flag.
    pub irq: bool,
}

impl Interrupts {
    /// No request pending.
    pub fn new() -> (r: Interrupts)
        ensures
            r == (Interrupts { nmi: false, irq: false }),
    {
        Interrupts { nmi: false, irq: false }
    }
}

/// What addressing-mode resolution yields: nothing, a byte (an immediate value or
/// a zero-page address) or a full 16-bit address.
#[derive(Clone, Copy, Debug, PartialEq, Eq, Structural)]
pub enum Operand {
    Empty,
    Byte(u8),
    Word(u16),
}

/// The 6502 core: registers and pending interrupts. Memory is reached through a
/// `CpuBus` handed to each operation.
#[derive(Clone, Copy, Debug, PartialEq, Eq, Structural)]
pub struct Cpu {
    pub register: Register,
    pub interrupts: Interrupts,
}

/// The CPU together with everything on its bus.
pub struct Machine {
    pub cpu: Cpu,
    pub bus: BusView,
}

pub open spec fn mach(cpu: Cpu, bus: BusView) -> Machine {
    Machine { cpu, bus }
}

impl Machine {
    pub open spec fn wf(self) -> bool {
        &&& self.bus.wf()
        &&& self.cpu.register.p.reserved
    }
}

pub open spec fn with_register(m: Machine, r: Register) -> Machine {
    Machine { cpu: Cpu { register: r, ..m.cpu }, ..m }
}

pub open spec fn with_pc(m: Machine, pc: u16) -> Machine {
    with_register(m, Register { pc, ..m.cpu.register })
}

pub open spec fn with_flags(m: Machine, p: StatusRegister) -> Machine {
    with_register(m, Register { p, ..m.cpu.register })
}

/// Flags with N and Z taken from `v`.
pub open spec fn with_nz(p: StatusRegister, v: u8) -> StatusRegister {
    StatusRegister { negative: v >= 0x80, zero: v == 0, ..p }
}

/// A bus read, in machine terms.
pub open spec fn read_at(m: Machine, addr: u16) -> (Machine, u8) {
    let (b, v) = bus_read(m.bus, addr);
    (Machine { bus: b, ..m }, v)
}

/// A bus write, in machine terms.
pub open spec fn write_at(m: Machine, addr: u16, v: u8) -> Machine {
    Machine { bus: bus_write(m.bus, addr, v), ..m }
}

/// The little-endian 16-bit value of two bytes: (hi << 8) | lo.
pub open spec fn word(lo: u8, hi: u8) -> u16 {
    (hi * 256 + lo) as u16
}

/// Reads the byte at PC and advances PC.
pub open spec fn fetch_byte(m: Machine) -> (Machine, u8) {
    let (m1, v) = read_at(m, m.cpu.register.pc);
    (with_pc(m1, u16_specs::wrapping_add(m.cpu.register.pc, 1)), v)
}

/// Reads a little-endian word at PC and advances PC by two.
pub open spec fn fetch_word(m: Machine) -> (Machine, u16) {
    let (m1, lo) = fetch_byte(m);
    let (m2, hi) = fetch_byte(m1);
    (m2, word(lo, hi))
}

/// Push: write to 0x0100 | S, then S = S - 1 (mod 256).
pub open spec fn push_byte(m: Machine, v: u8) -> Machine {
    let s = m.cpu.register.s;
    let m1 = write_at(m, (0x100 + s) as u16, v);
    with_register(m1, Register { s: u8_specs::wrapping_sub(s, 1), ..m1.cpu.register })
}

/// Pop: S = S + 1 (mod 256), then read from 0x0100 | S.
pub open spec fn pop_byte(m: Machine) -> (Machine, u8) {
    let s = u8_specs::wrapping_add(m.cpu.register.s, 1);
    read_at(with_register(m, Register { s, ..m.cpu.register }), (0x100 + s) as u16)
}

/// The status byte as pushed: U always 1, B as given by the push.
pub open spec fn pack_flags(p: StatusRegister, brk: bool) -> u8 {
    ((if p.negative { 0x80int } else { 0 }) + (if p.overflow { 0x40int } else { 0 }) + 0x20 + (if brk {
        0x10int
    } else {
        0
    }) + (if p.decimal { 0x08int } else { 0 }) + (if p.interrupt { 0x04int } else { 0 }) + (if p.zero {
        0x02int
    } else {
        0
    }) + (if p.carry { 0x01int } else { 0 })) as u8
}

/// Flags pulled from the stack: every bit of `v` but B, which keeps its current
/// value, and U, which stays set.
pub open spec fn unpack_flags(cur: StatusRegister, v: u8) -> StatusRegister {
    StatusRegister {
        negative: v & 0x80 != 0,
        overflow: v & 0x40 != 0,
        reserved: true,
        breakm: cur.breakm,
        decimal: v & 0x08 != 0,
        interrupt: v & 0x04 != 0,
        zero: v & 0x02 != 0,
        carry: v & 0x01 != 0,
    }
}

/// Whether two addresses lie on different 256-byte pages.
pub open spec fn pages_differ(a: u16, b: u16) -> bool {
    a / 256 != b / 256
}

/// Resolves the operand of an instruction in `mode`, fetching its bytes after the
/// opcode. The flag tells whether indexing crossed a page.
pub open spec fn resolve_operand(m: Machine, mode: AddressingMode) -> (Machine, Operand, bool) {
    let r = m.cpu.register;
    match mode {
        AddressingMode::Implied | AddressingMode::Accumulator => (m, Operand::Empty, false),
        AddressingMode::Immediate | AddressingMode::Zeropage => {
            let (m1, b) = fetch_byte(m);
            (m1, Operand::Byte(b), false)
        },
        AddressingMode::ZeropageX => {
            let (m1, b) = fetch_byte(m);
            (m1, Operand::Byte(u8_specs::wrapping_add(b, r.x)), false)
        },
        AddressingMode::ZeropageY => {
            let (m1, b) = fetch_byte(m);
            (m1, Operand::Byte(u8_specs::wrapping_add(b, r.y)), false)
        },
        AddressingMode::Absolute => {
            let (m1, w) = fetch_word(m);
            (m1, Operand::Word(w), false)
        },
        AddressingMode::AbsoluteX => {
            let (m1, w) = fetch_word(m);
            let e = u16_specs::wrapping_add(w, r.x as u16);
            (m1, Operand::Word(e), pages_differ(w, e))
        },
        AddressingMode::AbsoluteY => {
            let (m1, w) = fetch_word(m);
            let e = u16_specs::wrapping_add(w, r.y as u16);
            (m1, Operand::Word(e), pages_differ(w, e))
        },
        AddressingMode::Relative => {
            let (m1, b) = fetch_byte(m);
            (
                m1,
                Operand::Word(u16_specs::wrapping_add_signed(m1.cpu.register.pc, b as i8 as i16)),
                false,
            )
        },
        AddressingMode::IndexedIndirect => {
            let (m1, b) = fetch_byte(m);
            let ptr = u8_specs::wrapping_add(b, r.x);
            let (m2, lo) = read_at(m1, ptr as u16);
            let (m3, hi) = read_at(m2, u8_specs::wrapping_add(ptr, 1) as u16);
            (m3, Operand::Word(word(lo, hi)), false)
        },
        AddressingMode::IndirectIndexed => {
            let (m1, ptr) = fetch_byte(m);
            let (m2, lo) = read_at(m1, ptr as u16);
            let (m3, hi) = read_at(m2, u8_specs::wrapping_add(ptr, 1) as u16);
            let base = word(lo, hi);
            let e = u16_specs::wrapping_add(base, r.y as u16);
            (m3, Operand::Word(e), pages_differ(base, e))
        },
        AddressingMode::AbsoluteIndirect => {
            let (m1, ptr) = fetch_word(m);
            let (m2, lo) = read_at(m1, ptr);
            let (m3, hi) = read_at(m2, ((ptr / 256) * 256 + (ptr % 256 + 1) % 256) as u16);
            (m3, Operand::Word(word(lo, hi)), false)
        },
    }
}

/// The byte an instruction works on: the accumulator, the immediate byte, or the
/// byte at the operand's address.
pub open spec fn operand_value(m: Machine, mode: AddressingMode, op: Operand) -> (Machine, u8) {
    match op {
        Operand::Empty => (m, m.cpu.register.a),
        Operand::Byte(b) => if mode == AddressingMode::Immediate {
            (m, b)
        } else {
            read_at(m, b as u16)
        },
        Operand::Word(w) => read_at(m, w),
    }
}

/// The address an operand designates (zero-page bytes are addresses below $100).
pub open spec fn operand_addr(op: Operand) -> u16 {
    match op {
        Operand::Empty => 0,
        Operand::Byte(b) => b as u16,
        Operand::Word(w) => w,
    }
}

pub open spec fn set_a(m: Machine, v: u8) -> Machine {
    with_register(m, Register { a: v, p: with_nz(m.cpu.register.p, v), ..m.cpu.register })
}

pub open spec fn set_x(m: Machine, v: u8) -> Machine {
    with_register(m, Register { x: v, p: with_nz(m.cpu.register.p, v), ..m.cpu.register })
}

pub open spec fn set_y(m: Machine, v: u8) -> Machine {
    with_register(m, Register { y: v, p: with_nz(m.cpu.register.p, v), ..m.cpu.register })
}

/// ADC: A + M + C computed wide; C is the carry out of bit 7, V is set when both
/// inputs' signs differ from the result's, and A takes the low byte.
pub open spec fn add_with_carry(m: Machine, v: u8) -> Machine {
    let r = m.cpu.register;
    let sum = r.a + v + (if r.p.carry {
        1int
    } else {
        0
    });
    let res = (sum % 256) as u8;
    let p = StatusRegister { carry: sum > 0xff, overflow: (r.a ^ res) & (v ^ res) & 0x80 != 0, ..r.p };
    with_register(m, Register { a: res, p: with_nz(p, res), ..r })
}

/// CMP, CPX, CPY: C = reg >= M, Z = reg == M, N = bit 7 of reg - M (mod 256).
pub open spec fn compare(m: Machine, reg: u8, v: u8) -> Machine {
    let p = m.cpu.register.p;
    with_flags(
        m,
        StatusRegister {
            carry: reg >= v,
            zero: reg == v,
            negative: u8_specs::wrapping_sub(reg, v) >= 0x80,
            ..p
        },
    )
}

/// The result and the new carry of a shift, rotate, increment or decrement of `v`
/// with carry `c`.
pub open spec fn modify_value(kind: OpCode, v: u8, c: bool) -> (u8, bool) {
    match kind {
        OpCode::ASL => (((v % 128) * 2) as u8, v >= 0x80),
        OpCode::LSR => (v / 2, v % 2 == 1),
        OpCode::ROL => (((v % 128) * 2 + (if c {
            1int
        } else {
            0
        })) as u8, v >= 0x80),
        OpCode::ROR => ((v / 2 + (if c {
            0x80int
        } else {
            0
        })) as u8, v % 2 == 1),
        OpCode::INC => (u8_specs::wrapping_add(v, 1), c),
        _ => (u8_specs::wrapping_sub(v, 1), c),
    }
}

/// A read-modify-write instruction on the accumulator (no operand) or on memory.
pub open spec fn read_modify_write(m: Machine, kind: OpCode, op: Operand) -> Machine {
    let r = m.cpu.register;
    match op {
        Operand::Empty => {
            let (res, c) = modify_value(kind, r.a, r.p.carry);
            with_register(m, Register { a: res, p: StatusRegister { carry: c, ..with_nz(r.p, res) }, ..r })
        },
        _ => {
            let addr = operand_addr(op);
            let (m1, v) = read_at(m, addr);
            let (res, c) = modify_value(kind, v, r.p.carry);
            let m2 = write_at(m1, addr, res);
            with_flags(m2, StatusRegister { carry: c, ..with_nz(r.p, res) })
        },
    }
}

pub open spec fn is_branch(kind: OpCode) -> bool {
    match kind {
        OpCode::BCC | OpCode::BCS | OpCode::BEQ | OpCode::BNE | OpCode::BMI | OpCode::BPL
        | OpCode::BVC | OpCode::BVS => true,
        _ => false,
    }
}

/// Whether branch `kind` is taken under flags `p`.
pub open spec fn branch_taken(kind: OpCode, p: StatusRegister) -> bool {
    match kind {
        OpCode::BCC => !p.carry,
        OpCode::BCS => p.carry,
        OpCode::BEQ => p.zero,
        OpCode::BNE => !p.zero,
        OpCode::BMI => p.negative,
        OpCode::BPL => !p.negative,
        OpCode::BVC => !p.overflow,
        OpCode::BVS => p.overflow,
        _ => false,
    }
}

/// The instructions that take a cycle more when indexing crosses a page.
pub open spec fn reads_memory(kind: OpCode) -> bool {
    match kind {
        OpCode::LDA | OpCode::LDX | OpCode::LDY | OpCode::ADC | OpCode::SBC | OpCode::AND
        | OpCode::ORA | OpCode::EOR | OpCode::CMP => true,
        _ => false,
    }
}

/// A branch: when taken, PC becomes the target and the instruction costs one cycle
/// more, two if the target is on another page than the next instruction.
pub open spec fn branch(m: Machine, kind: OpCode, op: Operand, base: u8) -> (Machine, u8) {
    let pc = m.cpu.register.pc;
    let target = operand_addr(op);
    if branch_taken(kind, m.cpu.register.p) {
        (with_pc(m, target), if pages_differ(pc, target) {
            (base + 2) as u8
        } else {
            (base + 1) as u8
        })
    } else {
        (m, base)
    }
}

/// Interrupt entry: push the return address (high byte first) and the status byte,
/// set I, and load PC from the vector (low byte first).
pub open spec fn enter_interrupt(m: Machine, ret: u16, vector: u16, brk: bool) -> Machine {
    let m1 = push_byte(m, (ret / 256) as u8);
    let m2 = push_byte(m1, (ret % 256) as u8);
    let m3 = push_byte(m2, pack_flags(m2.cpu.register.p, brk));
    let m4 = with_flags(m3, StatusRegister { interrupt: true, ..m3.cpu.register.p });
    let (m5, lo) = read_at(m4, vector);
    let (m6, hi) = read_at(m5, (vector + 1) as u16);
    with_pc(m6, word(lo, hi))
}

/// Reset: PC from $FFFC/$FFFD, S = $FD, I and U set, the other flags and registers
/// cleared. Nothing is pushed.
pub open spec fn reset_state(m: Machine) -> Machine {
    let (m1, lo) = read_at(m, 0xfffc);
    let (m2, hi) = read_at(m1, 0xfffd);
    with_register(m2, Register { pc: word(lo, hi), ..Register::reset_value() })
}

/// What each kind of interrupt does. NMI clears its request and cannot be masked;
/// IRQ and BRK do nothing while I is set; BRK returns past its padding byte and
/// pushes B = 1.
pub open spec fn service(m: Machine, kind: Interrupt) -> Machine {
    let pc = m.cpu.register.pc;
    match kind {
        Interrupt::NMI => enter_interrupt(
            Machine { cpu: Cpu { interrupts: Interrupts { nmi: false, ..m.cpu.interrupts }, ..m.cpu }, ..m },
            pc,
            0xfffa,
            false,
        ),
        Interrupt::RESET => reset_state(m),
        Interrupt::IRQ => if m.cpu.register.p.interrupt {
            m
        } else {
            enter_interrupt(m, pc, 0xfffe, false)
        },
        Interrupt::BRK => if m.cpu.register.p.interrupt {
            m
        } else {
            enter_interrupt(m, u16_specs::wrapping_add(pc, 1), 0xfffe, true)
        },
    }
}

/// Loads, stores and register transfers.
pub open spec fn is_load_store(kind: OpCode) -> bool {
    match kind {
        OpCode::LDA | OpCode::LDX | OpCode::LDY | OpCode::STA | OpCode::STX | OpCode::STY | OpCode::TAX | OpCode::TAY | OpCode::TXA | OpCode::TYA | OpCode::TSX | OpCode::TXS => true,
        _ => false,
    }
}

/// Addition, subtraction and logic on the accumulator.
pub open spec fn is_arithmetic(kind: OpCode) -> bool {
    match kind {
        OpCode::ADC | OpCode::SBC | OpCode::AND | OpCode::ORA | OpCode::EOR => true,
        _ => false,
    }
}

/// Compares and bit test.
pub open spec fn is_compare(kind: OpCode) -> bool {
    match kind {
        OpCode::CMP | OpCode::CPX | OpCode::CPY | OpCode::BIT => true,
        _ => false,
    }
}

/// Shifts, rotates, increments and decrements.
pub open spec fn is_modify(kind: OpCode) -> bool {
    match kind {
        OpCode::ASL | OpCode::LSR | OpCode::ROL | OpCode::ROR | OpCode::INC | OpCode::DEC | OpCode::INX | OpCode::DEX | OpCode::INY | OpCode::DEY => true,
        _ => false,
    }
}

/// Jumps, returns, stack, flag and system instructions.
pub open spec fn is_control(kind: OpCode) -> bool {
    match kind {
        OpCode::JMP | OpCode::JSR | OpCode::RTS | OpCode::RTI | OpCode::PHA | OpCode::PHP | OpCode::PLA | OpCode::PLP | OpCode::CLC | OpCode::SEC | OpCode::CLI | OpCode::SEI | OpCode::CLD | OpCode::SED | OpCode::CLV | OpCode::BRK => true,
        _ => false,
    }
}

/// The effect of every instruction but the branches.
pub open spec fn execute_op(m: Machine, kind: OpCode, mode: AddressingMode, op: Operand) -> Machine {
    let r = m.cpu.register;
    let (mv, v) = operand_value(m, mode, op);
    match kind {
        OpCode::LDA => set_a(mv, v),
        OpCode::LDX => set_x(mv, v),
        OpCode::LDY => set_y(mv, v),
        OpCode::STA => write_at(m, operand_addr(op), r.a),
        OpCode::STX => write_at(m, operand_addr(op), r.x),
        OpCode::STY => write_at(m, operand_addr(op), r.y),
        OpCode::TAX => set_x(m, r.a),
        OpCode::TAY => set_y(m, r.a),
        OpCode::TXA => set_a(m, r.x),
        OpCode::TYA => set_a(m, r.y),
        OpCode::TSX => set_x(m, r.s),
        OpCode::TXS => with_register(m, Register { s: r.x, ..r }),
        OpCode::ADC => add_with_carry(mv, v),
        OpCode::SBC => add_with_carry(mv, !v),
        OpCode::AND => set_a(mv, r.a & v),
        OpCode::ORA => set_a(mv, r.a | v),
        OpCode::EOR => set_a(mv, r.a ^ v),
        OpCode::CMP => compare(mv, r.a, v),
        OpCode::CPX => compare(mv, r.x, v),
        OpCode::CPY => compare(mv, r.y, v),
        OpCode::BIT => with_flags(
            mv,
            StatusRegister { negative: v >= 0x80, overflow: v & 0x40 != 0, zero: r.a & v == 0, ..r.p },
        ),
        OpCode::ASL | OpCode::LSR | OpCode::ROL | OpCode::ROR | OpCode::INC | OpCode::DEC => {
            read_modify_write(m, kind, op)
        },
        OpCode::INX => set_x(m, u8_specs::wrapping_add(r.x, 1)),
        OpCode::DEX => set_x(m, u8_specs::wrapping_sub(r.x, 1)),
        OpCode::INY => set_y(m, u8_specs::wrapping_add(r.y, 1)),
        OpCode::DEY => set_y(m, u8_specs::wrapping_sub(r.y, 1)),
        OpCode::JMP => with_pc(m, operand_addr(op)),
        OpCode::JSR => {
            let ret = u16_specs::wrapping_sub(r.pc, 1);
            let m1 = push_byte(m, (ret / 256) as u8);
            let m2 = push_byte(m1, (ret % 256) as u8);
            with_pc(m2, operand_addr(op))
        },
        OpCode::RTS => {
            let (m1, lo) = pop_byte(m);
            let (m2, hi) = pop_byte(m1);
            with_pc(m2, u16_specs::wrapping_add(word(lo, hi), 1))
        },
        OpCode::RTI => {
            let (m1, f) = pop_byte(m);
            let m2 = with_flags(m1, unpack_flags(r.p, f));
            let (m3, lo) = pop_byte(m2);
            let (m4, hi) = pop_byte(m3);
            with_pc(m4, word(lo, hi))
        },
        OpCode::PHA => push_byte(m, r.a),
        OpCode::PHP => push_byte(m, pack_flags(r.p, true)),
        OpCode::PLA => {
            let (m1, a) = pop_byte(m);
            set_a(m1, a)
        },
        OpCode::PLP => {
            let (m1, f) = pop_byte(m);
            with_flags(m1, unpack_flags(r.p, f))
        },
        OpCode::CLC => with_flags(m, StatusRegister { carry: false, ..r.p }),
        OpCode::SEC => with_flags(m, StatusRegister { carry: true, ..r.p }),
        OpCode::CLI => with_flags(m, StatusRegister { interrupt: false, ..r.p }),
        OpCode::SEI => with_flags(m, StatusRegister { interrupt: true, ..r.p }),
        OpCode::CLD => with_flags(m, StatusRegister { decimal: false, ..r.p }),
        OpCode::SED => with_flags(m, StatusRegister { decimal: true, ..r.p }),
        OpCode::CLV => with_flags(m, StatusRegister { overflow: false, ..r.p }),
        OpCode::BRK => service(m, Interrupt::BRK),
        _ => m,
    }
}

/// Executes a decoded instruction on its resolved operand; returns the cycles it
/// took: the base count, plus one for a read across a page, or the branch extras.
pub open spec fn execute(m: Machine, inst: Instruction, op: Operand, crossed: bool) -> (Machine, u8) {
    if is_branch(inst.0) {
        branch(m, inst.0, op, inst.2)
    } else {
        (execute_op(m, inst.0, inst.1, op), if crossed && reads_memory(inst.0) {
            (inst.2 + 1) as u8
        } else {
            inst.2
        })
    }
}

/// One step: a pending NMI, else an unmasked IRQ, is serviced (7 cycles); otherwise
/// one instruction is fetched, decoded, resolved and executed.
#[verifier::opaque]
pub open spec fn step(m: Machine) -> (Machine, Result<u8, NesError>) {
    if m.cpu.interrupts.nmi {
        (service(m, Interrupt::NMI), Ok(7))
    } else if m.cpu.interrupts.irq && !m.cpu.register.p.interrupt {
        (service(m, Interrupt::IRQ), Ok(7))
    } else {
        let (m1, code) = fetch_byte(m);
        match opcode_table(code) {
            None => (m1, Err(NesError::IllegalOpcode(code))),
            Some(inst) => {
                let (m2, op, crossed) = resolve_operand(m1, inst.1);
                let (m3, cycles) = execute(m2, inst, op, crossed);
                (m3, Ok(cycles))
            },
        }
    }
}

/// Every official opcode's base cycle count is at most 7.
proof fn lemma_table_cycles(code: u8)
    ensures
        match opcode_table(code) {
            Some(i) => i.2 <= 7,
            None => true,
        },
{
}

impl Cpu {
    pub open spec fn wf(&self) -> bool {
        self.register.p.reserved
    }

    /// A CPU that has not been reset yet: registers at their reset values with PC
    /// zero, nothing pending.
    pub fn new() -> (r: Cpu)
        ensures
            r == (Cpu { register: Register::reset_value(), interrupts: Interrupts { nmi: false, irq: false } }),
            r.wf(),
    {
        Cpu { register: Register::new(), interrupts: Interrupts::new() }
    }

    /// Performs reset: loads PC from the vector at $FFFC/$FFFD and sets S, the flags
    /// and the other registers to their reset values.
    pub fn reset(&mut self, bus: &mut CpuBus)
        requires
            old(bus).wf(),
        ensures
            final(bus).wf(),
            final(self).wf(),
            mach(*final(self), final(bus)@) == reset_state(mach(*old(self), old(bus)@)),
    {
        let lo = bus.read(0xfffc);
        let hi = bus.read(0xfffd);
        let mut register = Register::new();
        register.pc = (hi as u16) * 256 + lo as u16;
        self.register = register;
    }

    /// Reads the byte at PC and advances PC.
    fn fetch(&mut self, bus: &mut CpuBus) -> (r: u8)
        requires
            old(bus).wf(),
        ensures
            final(bus).wf(),
            (mach(*final(self), final(bus)@), r) == fetch_byte(mach(*old(self), old(bus)@)),
    {
        let byte = bus.read(self.register.pc);
        self.register.pc = self.register.pc.wrapping_add(1);
        byte
    }

    /// Reads a little-endian word at PC and advances PC by two.
    fn fetch_word(&mut self, bus: &mut CpuBus) -> (r: u16)
        requires
            old(bus).wf(),
        ensures
            final(bus).wf(),
            (mach(*final(self), final(bus)@), r) == fetch_word(mach(*old(self), old(bus)@)),
    {
        let lo = self.fetch(bus);
        let hi = self.fetch(bus);
        (hi as u16) * 256 + lo as u16
    }

    /// Pushes a byte onto the stack.
    fn stack_push(&mut self, bus: &mut CpuBus, data: u8)
        requires
            old(bus).wf(),
        ensures
            final(bus).wf(),
            mach(*final(self), final(bus)@) == push_byte(mach(*old(self), old(bus)@), data),
    {
        bus.write(0x100 + self.register.s as u16, data);
        self.register.s = self.register.s.wrapping_sub(1);
    }

    /// Pops a byte from the stack.
    fn stack_pop(&mut self, bus: &mut CpuBus) -> (r: u8)
        requires
            old(bus).wf(),
        ensures
            final(bus).wf(),
            (mach(*final(self), final(bus)@), r) == pop_byte(mach(*old(self), old(bus)@)),
    {
        self.register.s = self.register.s.wrapping_add(1);
        bus.read(0x100 + self.register.s as u16)
    }

    /// The status byte to push, with B as given.
    fn get_flags(&self, brk: bool) -> (r: u8)
        ensures
            r == pack_flags(self.register.p, brk),
    {
        let p = self.register.p;
        let n: u8 = if p.negative { 0x80 } else { 0 };
        let v: u8 = if p.overflow { 0x40 } else { 0 };
        let b: u8 = if brk { 0x10 } else { 0 };
        let d: u8 = if p.decimal { 0x08 } else { 0 };
        let i: u8 = if p.interrupt { 0x04 } else { 0 };
        let z: u8 = if p.zero { 0x02 } else { 0 };
        let c: u8 = if p.carry { 0x01 } else { 0 };
        n + v + 0x20 + b + d + i + z + c
    }

    /// Takes the flags from a pulled status byte; B keeps its value and U stays set.
    fn set_flags(&mut self, flags: u8)
        ensures
            *final(self) == (Cpu {
                register: Register { p: unpack_flags(old(self).register.p, flags), ..old(self).register },
                ..*old(self)
            }),
    {
        self.register.p = StatusRegister {
            negative: flags & 0x80 != 0,
            overflow: flags & 0x40 != 0,
            reserved: true,
            breakm: self.register.p.breakm,
            decimal: flags & 0x08 != 0,
            interrupt: flags & 0x04 != 0,
            zero: flags & 0x02 != 0,
            carry: flags & 0x01 != 0,
        };
    }

    /// Pushes the status byte.
    fn push_status(&mut self, bus: &mut CpuBus, brk: bool)
        requires
            old(bus).wf(),
        ensures
            final(bus).wf(),
            mach(*final(self), final(bus)@) == push_byte(
                mach(*old(self), old(bus)@),
                pack_flags(old(self).register.p, brk),
            ),
    {
        let flags = self.get_flags(brk);
        self.stack_push(bus, flags);
    }

    /// Pulls the status byte.
    fn pop_status(&mut self, bus: &mut CpuBus)
        requires
            old(bus).wf(),
        ensures
            final(bus).wf(),
            ({
                let (m1, f) = pop_byte(mach(*old(self), old(bus)@));
                mach(*final(self), final(bus)@) == with_flags(m1, unpack_flags(old(self).register.p, f))
            }),
    {
        let status = self.stack_pop(bus);
        self.set_flags(status);
    }

    /// Pulls a return address, low byte first.
    fn pop_pc(&mut self, bus: &mut CpuBus) -> (r: u16)
        requires
            old(bus).wf(),
        ensures
            final(bus).wf(),
            ({
                let (m1, lo) = pop_byte(mach(*old(self), old(bus)@));
                let (m2, hi) = pop_byte(m1);
                mach(*final(self), final(bus)@) == m2 && r == word(lo, hi)
            }),
    {
        let lo = self.stack_pop(bus);
        let hi = self.stack_pop(bus);
        (hi as u16) * 256 + lo as u16
    }

    /// Requests an NMI, to be serviced at the start of the next step.
    pub fn set_nmi_flag(&mut self)
        ensures
            *final(self) == (Cpu { interrupts: Interrupts { nmi: true, ..old(self).interrupts }, ..*old(self) }),
    {
        self.interrupts.nmi = true;
    }

    fn enter_interrupt(&mut self, bus: &mut CpuBus, ret: u16, vector: u16, brk: bool)
        requires
            old(bus).wf(),
            vector < 0xffff,
        ensures
            final(bus).wf(),
            mach(*final(self), final(bus)@) == enter_interrupt(mach(*old(self), old(bus)@), ret, vector, brk),
    {
        self.stack_push(bus, (ret / 256) as u8);
        self.stack_push(bus, (ret % 256) as u8);
        self.push_status(bus, brk);
        self.register.p.interrupt = true;
        let low = bus.read(vector);
        let hi = bus.read(vector + 1);
        self.register.pc = (hi as u16) * 256 + low as u16;
    }

    /// Services an interrupt of the given kind.
    pub fn interrupt(&mut self, bus: &mut CpuBus, interruption: Interrupt)
        requires
            old(bus).wf(),
        ensures
            final(bus).wf(),
            mach(*final(self), final(bus)@) == service(mach(*old(self), old(bus)@), interruption),
    {
        let pc = self.register.pc;
        match interruption {
            Interrupt::NMI => {
                self.interrupts.nmi = false;
                self.enter_interrupt(bus, pc, 0xfffa, false);
            },
            Interrupt::RESET => {
                self.reset(bus);
            },
            Interrupt::IRQ => {
                if !self.register.p.interrupt {
                    self.enter_interrupt(bus, pc, 0xfffe, false);
                }
            },
            Interrupt::BRK => {
                if !self.register.p.interrupt {
                    self.enter_interrupt(bus, pc.wrapping_add(1), 0xfffe, true);
                }
            },
        }
    }

    /// Whether two addresses lie on different pages.
    fn pages_diff(a: u16, b: u16) -> (r: bool)
        ensures
            r == pages_differ(a, b),
    {
        a / 256 != b / 256
    }

    /// The cycle count of a taken branch to `addr`: one more than `cycles`, two
    /// more when `addr` is on another page than PC.
    fn add_branch_cycles(&self, addr: u16, cycles: u8) -> (r: u8)
        requires
            cycles <= 7,
        ensures
            r == if pages_differ(self.register.pc, addr) {
                (cycles + 2) as u8
            } else {
                (cycles + 1) as u8
            },
    {
        if Self::pages_diff(self.register.pc, addr) {
            cycles + 2
        } else {
            cycles + 1
        }
    }

    /// Resolves the operand for `mode`, fetching the bytes after the opcode;
    /// also tells whether indexing crossed a page.
    fn fetch_operand(&mut self, bus: &mut CpuBus, mode: AddressingMode) -> (r: (Operand, bool))
        requires
            old(bus).wf(),
        ensures
            final(bus).wf(),
            (mach(*final(self), final(bus)@), r.0, r.1) == resolve_operand(mach(*old(self), old(bus)@), mode),
    {
        match mode {
            AddressingMode::Implied | AddressingMode::Accumulator => (Operand::Empty, false),
            AddressingMode::Immediate | AddressingMode::Zeropage => (Operand::Byte(self.fetch(bus)), false),
            AddressingMode::ZeropageX => {
                let addr = self.fetch(bus);
                (Operand::Byte(addr.wrapping_add(self.register.x)), false)
            },
            AddressingMode::ZeropageY => {
                let addr = self.fetch(bus);
                (Operand::Byte(addr.wrapping_add(self.register.y)), false)
            },
            AddressingMode::Absolute => (Operand::Word(self.fetch_word(bus)), false),
            AddressingMode::AbsoluteX => {
                let base = self.fetch_word(bus);
                let addr = base.wrapping_add(self.register.x as u16);
                (Operand::Word(addr), Self::pages_diff(base, addr))
            },
            AddressingMode::AbsoluteY => {
                let base = self.fetch_word(bus);
                let addr = base.wrapping_add(self.register.y as u16);
                (Operand::Word(addr), Self::pages_diff(base, addr))
            },
            AddressingMode::Relative => {
                let offset = self.fetch(bus);
                (Operand::Word(self.register.pc.wrapping_add_signed(offset as i8 as i16)), false)
            },
            AddressingMode::IndexedIndirect => {
                let ptr = self.fetch(bus).wrapping_add(self.register.x);
                let low = bus.read(ptr as u16);
                let hi = bus.read(ptr.wrapping_add(1) as u16);
                (Operand::Word((hi as u16) * 256 + low as u16), false)
            },
            AddressingMode::IndirectIndexed => {
                let ptr = self.fetch(bus);
                let low = bus.read(ptr as u16);
                let hi = bus.read(ptr.wrapping_add(1) as u16);
                let base = (hi as u16) * 256 + low as u16;
                let addr = base.wrapping_add(self.register.y as u16);
                (Operand::Word(addr), Self::pages_diff(base, addr))
            },
            AddressingMode::AbsoluteIndirect => {
                let ptr = self.fetch_word(bus);
                let low = bus.read(ptr);
                let hi = bus.read((ptr / 256) * 256 + (ptr % 256 + 1) % 256);
                (Operand::Word((hi as u16) * 256 + low as u16), false)
            },
        }
    }

    /// The byte an instruction works on.
    fn value(&self, bus: &mut CpuBus, mode: AddressingMode, op: Operand) -> (r: u8)
        requires
            old(bus).wf(),
        ensures
            final(bus).wf(),
            (mach(*self, final(bus)@), r) == operand_value(mach(*self, old(bus)@), mode, op),
    {
        match op {
            Operand::Empty => self.register.a,
            Operand::Byte(b) => if matches!(mode, AddressingMode::Immediate) {
                b
            } else {
                bus.read(b as u16)
            },
            Operand::Word(w) => bus.read(w),
        }
    }

    fn address(op: Operand) -> (r: u16)
        ensures
            r == operand_addr(op),
    {
        match op {
            Operand::Empty => 0,
            Operand::Byte(b) => b as u16,
            Operand::Word(w) => w,
        }
    }

    fn set_nz(&mut self, v: u8)
        ensures
            *final(self) == (Cpu {
                register: Register { p: with_nz(old(self).register.p, v), ..old(self).register },
                ..*old(self)
            }),
    {
        self.register.p.negative = v >= 0x80;
        self.register.p.zero = v == 0;
    }

    fn add_with_carry(&mut self, bus: &CpuBus, v: u8)
        ensures
            mach(*final(self), bus@) == add_with_carry(mach(*old(self), bus@), v),
    {
        let a = self.register.a;
        let sum: u16 = a as u16 + v as u16 + if self.register.p.carry { 1 } else { 0 };
        let res = (sum % 256) as u8;
        self.register.p.carry = sum > 0xff;
        self.register.p.overflow = (a ^ res) & (v ^ res) & 0x80 != 0;
        self.register.a = res;
        self.set_nz(res);
    }

    fn compare(&mut self, bus: &CpuBus, reg: u8, v: u8)
        ensures
            mach(*final(self), bus@) == compare(mach(*old(self), bus@), reg, v),
    {
        self.register.p.carry = reg >= v;
        self.register.p.zero = reg == v;
        self.register.p.negative = reg.wrapping_sub(v) >= 0x80;
    }

    fn bit_test(&mut self, bus: &CpuBus, v: u8)
        ensures
            mach(*final(self), bus@) == with_flags(
                mach(*old(self), bus@),
                StatusRegister {
                    negative: v >= 0x80,
                    overflow: v & 0x40 != 0,
                    zero: old(self).register.a & v == 0,
                    ..old(self).register.p
                },
            ),
    {
        let a = self.register.a;
        self.register.p.negative = v >= 0x80;
        self.register.p.overflow = v & 0x40 != 0;
        self.register.p.zero = a & v == 0;
    }

    fn modify_value(kind: OpCode, v: u8, c: bool) -> (r: (u8, bool))
        ensures
            r == modify_value(kind, v, c),
    {
        match kind {
            OpCode::ASL => ((v % 128) * 2, v >= 0x80),
            OpCode::LSR => (v / 2, v % 2 == 1),
            OpCode::ROL => ((v % 128) * 2 + if c { 1 } else { 0 }, v >= 0x80),
            OpCode::ROR => (v / 2 + if c { 0x80 } else { 0 }, v % 2 == 1),
            OpCode::INC => (v.wrapping_add(1), c),
            _ => (v.wrapping_sub(1), c),
        }
    }

    fn read_modify_write(&mut self, bus: &mut CpuBus, kind: OpCode, op: Operand)
        requires
            old(bus).wf(),
        ensures
            final(bus).wf(),
            mach(*final(self), final(bus)@) == read_modify_write(mach(*old(self), old(bus)@), kind, op),
    {
        let c = self.register.p.carry;
        match op {
            Operand::Empty => {
                let (res, carry) = Self::modify_value(kind, self.register.a, c);
                self.register.a = res;
                self.set_nz(res);
                self.register.p.carry = carry;
            },
            _ => {
                let addr = Self::address(op);
                let v = bus.read(addr);
                let (res, carry) = Self::modify_value(kind, v, c);
                bus.write(addr, res);
                self.set_nz(res);
                self.register.p.carry = carry;
            },
        }
    }
}

impl Cpu {
    fn set_a(&mut self, v: u8)
        ensures
            *final(self) == (Cpu {
                register: Register { a: v, p: with_nz(old(self).register.p, v), ..old(self).register },
                ..*old(self)
            }),
    {
        self.register.a = v;
        self.set_nz(v);
    }

    fn set_x(&mut self, v: u8)
        ensures
            *final(self) == (Cpu {
                register: Register { x: v, p: with_nz(old(self).register.p, v), ..old(self).register },
                ..*old(self)
            }),
    {
        self.register.x = v;
        self.set_nz(v);
    }

    fn set_y(&mut self, v: u8)
        ensures
            *final(self) == (Cpu {
                register: Register { y: v, p: with_nz(old(self).register.p, v), ..old(self).register },
                ..*old(self)
            }),
    {
        self.register.y = v;
        self.set_nz(v);
    }

    /// Loads, stores and register transfers.
    fn exec_load_store(&mut self, bus: &mut CpuBus, kind: OpCode, mode: AddressingMode, operand: Operand)
        requires
            old(bus).wf(),
            is_load_store(kind),
        ensures
            final(bus).wf(),
            mach(*final(self), final(bus)@) == execute_op(mach(*old(self), old(bus)@), kind, mode, operand),
    {
        let a = self.register.a;
        let x = self.register.x;
        let y = self.register.y;
        match kind {
            OpCode::LDA => {
                let v = self.value(bus, mode, operand);
                self.set_a(v);
            },
            OpCode::LDX => {
                let v = self.value(bus, mode, operand);
                self.set_x(v);
            },
            OpCode::LDY => {
                let v = self.value(bus, mode, operand);
                self.set_y(v);
            },
            OpCode::STA => {
                bus.write(Self::address(operand), a);
            },
            OpCode::STX => {
                bus.write(Self::address(operand), x);
            },
            OpCode::STY => {
                bus.write(Self::address(operand), y);
            },
            OpCode::TAX => self.set_x(a),
            OpCode::TAY => self.set_y(a),
            OpCode::TXA => self.set_a(x),
            OpCode::TYA => self.set_a(y),
            OpCode::TSX => self.set_x(self.register.s),
            OpCode::TXS => {
                self.register.s = x;
            },
            _ => {},
        }
    }

    /// Addition, subtraction and logic on the accumulator.
    fn exec_arith(&mut self, bus: &mut CpuBus, kind: OpCode, mode: AddressingMode, operand: Operand)
        requires
            old(bus).wf(),
            is_arithmetic(kind),
        ensures
            final(bus).wf(),
            mach(*final(self), final(bus)@) == execute_op(mach(*old(self), old(bus)@), kind, mode, operand),
    {
        let a = self.register.a;
        match kind {
            OpCode::ADC => {
                let v = self.value(bus, mode, operand);
                self.add_with_carry(bus, v);
            },
            OpCode::SBC => {
                let v = self.value(bus, mode, operand);
                self.add_with_carry(bus, !v);
            },
            OpCode::AND => {
                let v = self.value(bus, mode, operand);
                self.set_a(a & v);
            },
            OpCode::ORA => {
                let v = self.value(bus, mode, operand);
                self.set_a(a | v);
            },
            OpCode::EOR => {
                let v = self.value(bus, mode, operand);
                self.set_a(a ^ v);
            },
            _ => {},
        }
    }

    /// Compares and bit test.
    fn exec_compare(&mut self, bus: &mut CpuBus, kind: OpCode, mode: AddressingMode, operand: Operand)
        requires
            old(bus).wf(),
            is_compare(kind),
        ensures
            final(bus).wf(),
            mach(*final(self), final(bus)@) == execute_op(mach(*old(self), old(bus)@), kind, mode, operand),
    {
        let a = self.register.a;
        let x = self.register.x;
        let y = self.register.y;
        match kind {
            OpCode::CMP => {
                let v = self.value(bus, mode, operand);
                self.compare(bus, a, v);
            },
            OpCode::CPX => {
                let v = self.value(bus, mode, operand);
                self.compare(bus, x, v);
            },
            OpCode::CPY => {
                let v = self.value(bus, mode, operand);
                self.compare(bus, y, v);
            },
            OpCode::BIT => {
                let v = self.value(bus, mode, operand);
                self.bit_test(bus, v);
            },
            _ => {},
        }
    }

    /// Shifts, rotates, increments and decrements.
    fn exec_modify(&mut self, bus: &mut CpuBus, kind: OpCode, mode: AddressingMode, operand: Operand)
        requires
            old(bus).wf(),
            is_modify(kind),
        ensures
            final(bus).wf(),
            mach(*final(self), final(bus)@) == execute_op(mach(*old(self), old(bus)@), kind, mode, operand),
    {
        let x = self.register.x;
        let y = self.register.y;
        match kind {
            OpCode::ASL | OpCode::LSR | OpCode::ROL | OpCode::ROR | OpCode::INC | OpCode::DEC => {
                self.read_modify_write(bus, kind, operand);
            },
            OpCode::INX => self.set_x(x.wrapping_add(1)),
            OpCode::DEX => self.set_x(x.wrapping_sub(1)),
            OpCode::INY => self.set_y(y.wrapping_add(1)),
            OpCode::DEY => self.set_y(y.wrapping_sub(1)),
            _ => {},
        }
    }

    /// Jumps, returns, stack, flag and system instructions.
    #[verifier::rlimit(100)]
    fn exec_control(&mut self, bus: &mut CpuBus, kind: OpCode, mode: AddressingMode, operand: Operand)
        requires
            old(bus).wf(),
            is_control(kind),
        ensures
            final(bus).wf(),
            mach(*final(self), final(bus)@) == execute_op(mach(*old(self), old(bus)@), kind, mode, operand),
    {
        let a = self.register.a;
        match kind {
            OpCode::JMP => {
                self.register.pc = Self::address(operand);
            },
            OpCode::JSR => {
                let ret = self.register.pc.wrapping_sub(1);
                self.stack_push(bus, (ret / 256) as u8);
                self.stack_push(bus, (ret % 256) as u8);
                self.register.pc = Self::address(operand);
            },
            OpCode::RTS => {
                let ret = self.pop_pc(bus);
                self.register.pc = ret.wrapping_add(1);
            },
            OpCode::RTI => {
                self.pop_status(bus);
                let ret = self.pop_pc(bus);
                self.register.pc = ret;
            },
            OpCode::PHA => self.stack_push(bus, a),
            OpCode::PHP => self.push_status(bus, true),
            OpCode::PLA => {
                let v = self.stack_pop(bus);
                self.set_a(v);
            },
            OpCode::PLP => self.pop_status(bus),
            OpCode::CLC => {
                self.register.p.carry = false;
            },
            OpCode::SEC => {
                self.register.p.carry = true;
            },
            OpCode::CLI => {
                self.register.p.interrupt = false;
            },
            OpCode::SEI => {
                self.register.p.interrupt = true;
            },
            OpCode::CLD => {
                self.register.p.decimal = false;
            },
            OpCode::SED => {
                self.register.p.decimal = true;
            },
            OpCode::CLV => {
                self.register.p.overflow = false;
            },
            OpCode::BRK => self.interrupt(bus, Interrupt::BRK),
            _ => {},
        }
    }

    /// Executes an instruction other than a branch.
    fn exec_op(&mut self, bus: &mut CpuBus, kind: OpCode, mode: AddressingMode, operand: Operand)
        requires
            old(bus).wf(),
        ensures
            final(bus).wf(),
            mach(*final(self), final(bus)@) == execute_op(mach(*old(self), old(bus)@), kind, mode, operand),
    {
        match kind {
            OpCode::LDA | OpCode::LDX | OpCode::LDY | OpCode::STA | OpCode::STX | OpCode::STY | OpCode::TAX | OpCode::TAY | OpCode::TXA | OpCode::TYA | OpCode::TSX | OpCode::TXS => {
                self.exec_load_store(bus, kind, mode, operand);
            },
            OpCode::ADC | OpCode::SBC | OpCode::AND | OpCode::ORA | OpCode::EOR => {
                self.exec_arith(bus, kind, mode, operand);
            },
            OpCode::CMP | OpCode::CPX | OpCode::CPY | OpCode::BIT => {
                self.exec_compare(bus, kind, mode, operand);
            },
            OpCode::ASL | OpCode::LSR | OpCode::ROL | OpCode::ROR | OpCode::INC | OpCode::DEC | OpCode::INX | OpCode::DEX | OpCode::INY | OpCode::DEY => {
                self.exec_modify(bus, kind, mode, operand);
            },
            OpCode::JMP | OpCode::JSR | OpCode::RTS | OpCode::RTI | OpCode::PHA | OpCode::PHP | OpCode::PLA | OpCode::PLP | OpCode::CLC | OpCode::SEC | OpCode::CLI | OpCode::SEI | OpCode::CLD | OpCode::SED | OpCode::CLV | OpCode::BRK => {
                self.exec_control(bus, kind, mode, operand);
            },
            _ => {},
        }
    }

    /// Executes a decoded instruction on its resolved operand and returns the
    /// cycles it took.
    fn exec(&mut self, bus: &mut CpuBus, instruction: Instruction, operand: Operand, crossed: bool) -> (r: u8)
        requires
            old(bus).wf(),
            instruction.2 <= 7,
        ensures
            final(bus).wf(),
            (mach(*final(self), final(bus)@), r) == execute(mach(*old(self), old(bus)@), instruction, operand, crossed),
    {
        let Instruction(kind, mode, cycles) = instruction;
        let branch_flag = match kind {
            OpCode::BCC => Some(!self.register.p.carry),
            OpCode::BCS => Some(self.register.p.carry),
            OpCode::BEQ => Some(self.register.p.zero),
            OpCode::BNE => Some(!self.register.p.zero),
            OpCode::BMI => Some(self.register.p.negative),
            OpCode::BPL => Some(!self.register.p.negative),
            OpCode::BVC => Some(!self.register.p.overflow),
            OpCode::BVS => Some(self.register.p.overflow),
            _ => None,
        };
        match branch_flag {
            Some(taken) => {
                if taken {
                    let target = Self::address(operand);
                    let total = self.add_branch_cycles(target, cycles);
                    self.register.pc = target;
                    total
                } else {
                    cycles
                }
            },
            None => {
                self.exec_op(bus, kind, mode, operand);
                let reads = match kind {
                    OpCode::LDA | OpCode::LDX | OpCode::LDY | OpCode::ADC | OpCode::SBC | OpCode::AND
                    | OpCode::ORA | OpCode::EOR | OpCode::CMP => true,
                    _ => false,
                };
                if crossed && reads {
                    cycles + 1
                } else {
                    cycles
                }
            },
        }
    }

    /// Advances by one instruction, or by one interrupt entry when an NMI (or an
    /// unmasked IRQ) is pending, and returns the cycles used. An opcode byte that
    /// is not an official instruction is an `IllegalOpcode` error, after the fetch.
    pub fn run(&mut self, bus: &mut CpuBus) -> (r: Result<u8, NesError>)
        requires
            old(bus).wf(),
        ensures
            final(bus).wf(),
            (mach(*final(self), final(bus)@), r) == step(mach(*old(self), old(bus)@)),
    {
        reveal(step);
        if self.interrupts.nmi {
            self.interrupt(bus, Interrupt::NMI);
            return Ok(7);
        }
        if self.interrupts.irq && !self.register.p.interrupt {
            self.interrupt(bus, Interrupt::IRQ);
            return Ok(7);
        }
        let opcode = self.fetch(bus);
        proof {
            lemma_table_cycles(opcode);
        }
        match decode_op(opcode) {
            Err(e) => Err(e),
            Ok(instruction) => {
                let (operand, crossed) = self.fetch_operand(bus, instruction.1);
                Ok(self.exec(bus, instruction, operand, crossed))
            },
        }
    }
}

} // verus!
