use vstd::prelude::*;
use crate::cpu::{mach, reset_state, step, Cpu, Interrupts, Machine, Register};
use crate::cpu_bus::{BusView, CpuBus, PRG_BANK_SIZE};
use crate::error::NesError;
use crate::ppu::{advance, power_on, Ppu, PpuView, CHR_SIZE};
use crate::screen::{Screen, SCREEN_PIXELS};
use crate::wram::{WRAM, WRAM_SIZE};

verus! {

/// Length of the iNES header.
pub const NES_HEADER_SIZE: usize = 0x0010;

/// Size of one program ROM page.
pub const PROGRAM_ROM_SIZE: usize = 0x4000;

/// Size of one character ROM page.
pub const CHARACTER_ROM_SIZE: usize = 0x2000;

/// Whether the image starts with the iNES magic `4E 45 53 1A`.
pub open spec fn has_magic(b: Seq<u8>) -> bool {
    b.len() >= 4 && b[0] == 0x4e && b[1] == 0x45 && b[2] == 0x53 && b[3] == 0x1a
}

/// The mapper number: high nibble of byte 7, then high nibble of byte 6.
pub open spec fn mapper_number(b: Seq<u8>) -> int {
    (b[7] / 16) * 16 + b[6] / 16
}

/// Where character ROM starts.
pub open spec fn chr_start(b: Seq<u8>) -> int {
    NES_HEADER_SIZE + b[4] * PROGRAM_ROM_SIZE
}

/// The program ROM and character ROM of an NROM cartridge image: mapper 0, one or
/// two 16 KiB program pages, one 8 KiB character page, laid out after the 16-byte
/// header.
pub open spec fn parse_spec(b: Seq<u8>) -> Result<(Seq<u8>, Seq<u8>), NesError> {
    if !has_magic(b) {
        Err(NesError::BadMagic)
    } else if b.len() < NES_HEADER_SIZE {
        Err(NesError::Truncated)
    } else if mapper_number(b) != 0 || !(b[4] == 1 || b[4] == 2) || b[5] != 1 {
        Err(NesError::UnsupportedMapper)
    } else if b.len() < chr_start(b) + CHARACTER_ROM_SIZE {
        Err(NesError::Truncated)
    } else {
        Ok(
            (
                b.subrange(NES_HEADER_SIZE as int, chr_start(b)),
                b.subrange(chr_start(b), chr_start(b) + CHARACTER_ROM_SIZE),
            ),
        )
    }
}

/// The machine right after loading a cartridge with program ROM `prg` and
/// character ROM `chr`, before reset.
pub open spec fn loaded(prg: Seq<u8>, chr: Seq<u8>) -> Machine {
    mach(
        Cpu { register: Register::reset_value(), interrupts: Interrupts { nmi: false, irq: false } },
        BusView {
            wram: Seq::new(WRAM_SIZE as nat, |i: int| 0u8),
            ppu: PpuView { chr, ..power_on(Seq::new(SCREEN_PIXELS as nat, |i: int| 0u8)) },
            prg,
        },
    )
}

/// One orchestration round after a CPU step of `cycles` cycles: the PPU runs three
/// dots per cycle, and an NMI it requests is latched on the CPU.
pub open spec fn after_ppu(m: Machine, cycles: u8) -> Machine {
    let (p, nmi) = advance(m.bus.ppu, (3 * cycles) as nat);
    Machine {
        cpu: if nmi {
            Cpu { interrupts: Interrupts { nmi: true, ..m.cpu.interrupts }, ..m.cpu }
        } else {
            m.cpu
        },
        bus: BusView { ppu: p, ..m.bus },
    }
}

fn copy_range(v: &Vec<u8>, start: usize, len: usize) -> (r: Vec<u8>)
    requires
        start + len <= v@.len(),
    ensures
        r@ == v@.subrange(start as int, start + len),
{
    let n = v.len();
    let mut out: Vec<u8> = Vec::with_capacity(len);
    let mut i: usize = 0;
    while i < len
        invariant
            n == v@.len(),
            i <= len,
            start + len <= v@.len(),
            out@ == v@.subrange(start as int, start + i),
        decreases len - i,
    {
        out.push(v[start + i]);
        i = i + 1;
        assert(out@ =~= v@.subrange(start as int, start + i));
    }
    out
}

/// Owns the CPU and everything on its bus, and steps them in lockstep.
pub struct NES {
    cpu: Cpu,
    cpu_bus: CpuBus,
}

impl NES {
    /// The whole machine.
    pub closed spec fn machine(&self) -> Machine {
        mach(self.cpu, self.cpu_bus@)
    }

    pub open spec fn wf(&self) -> bool {
        self.machine().bus.wf()
    }

    /// Splits an iNES image into program ROM and character ROM.
    pub fn parse(binary: &Vec<u8>) -> (r: Result<(Vec<u8>, Vec<u8>), NesError>)
        ensures
            match parse_spec(binary@) {
                Ok((prg, chr)) => r matches Ok((p, c)) && p@ == prg && c@ == chr,
                Err(e) => r == Err::<(Vec<u8>, Vec<u8>), NesError>(e),
            },
    {
        let n = binary.len();
        if n < 4 || binary[0] != 0x4e || binary[1] != 0x45 || binary[2] != 0x53 || binary[3] != 0x1a {
            return Err(NesError::BadMagic);
        }
        if n < NES_HEADER_SIZE {
            return Err(NesError::Truncated);
        }
        let program_rom_page = binary[4];
        let character_rom_page = binary[5];
        let mapper = (binary[7] / 16) as usize * 16 + (binary[6] / 16) as usize;
        if mapper != 0 || !(program_rom_page == 1 || program_rom_page == 2) || character_rom_page != 1 {
            return Err(NesError::UnsupportedMapper);
        }
        let character_rom_start = NES_HEADER_SIZE + program_rom_page as usize * PROGRAM_ROM_SIZE;
        if n < character_rom_start + CHARACTER_ROM_SIZE {
            return Err(NesError::Truncated);
        }
        let prog = copy_range(binary, NES_HEADER_SIZE, character_rom_start - NES_HEADER_SIZE);
        let chrs = copy_range(binary, character_rom_start, CHARACTER_ROM_SIZE);
        Ok((prog, chrs))
    }

    /// Builds the machine from an iNES image and resets the CPU; fails as `parse`
    /// does.
    pub fn load(program: Vec<u8>) -> (r: Result<NES, NesError>)
        ensures
            match parse_spec(program@) {
                Ok((prg, chr)) => r matches Ok(nes) && nes.wf() && nes.machine() == reset_state(
                    loaded(prg, chr),
                ),
                Err(e) => r matches Err(f) && f == e,
            },
    {
        match Self::parse(&program) {
            Err(e) => Err(e),
            Ok((prog, chrs)) => {
                let wram = WRAM::new();
                let screen = Screen::new();
                let mut ppu = Ppu::new(screen);
                ppu.load_pattern_table(chrs);
                let mut cpu_bus = CpuBus::new(wram, ppu, prog);
                let mut cpu = Cpu::new();
                proof {
                    assert(mach(cpu, cpu_bus@) == loaded(prog@, chrs@));
                }
                cpu.reset(&mut cpu_bus);
                Ok(NES { cpu, cpu_bus })
            },
        }
    }

    /// Advances the CPU by one instruction (or interrupt entry), then the PPU by three
    /// dots per CPU cycle, latching on the CPU an NMI that the PPU requests. Returns
    /// the CPU cycles; an illegal opcode stops the round before the PPU runs.
    pub fn next(&mut self) -> (r: Result<usize, NesError>)
        requires
            old(self).wf(),
        ensures
            final(self).wf(),
            ({
                let (m1, res) = step(old(self).machine());
                match res {
                    Ok(c) => r == Ok::<usize, NesError>(c as usize) && final(self).machine() == after_ppu(m1, c),
                    Err(e) => r == Err::<usize, NesError>(e) && final(self).machine() == m1,
                }
            }),
    {
        match self.cpu.run(&mut self.cpu_bus) {
            Err(e) => Err(e),
            Ok(cycles) => {
                let nmi = self.cpu_bus.run_ppu(3 * cycles as usize);
                if nmi {
                    self.cpu.set_nmi_flag();
                }
                Ok(cycles as usize)
            },
        }
    }

    /// The CPU's registers and pending interrupts.
    pub fn cpu(&self) -> (r: Cpu)
        ensures
            r == self.machine().cpu,
    {
        self.cpu
    }

    /// The PPU.
    pub fn ppu(&self) -> (r: &Ppu)
        ensures
            r@ == self.machine().bus.ppu,
    {
        self.cpu_bus.ppu()
    }

    /// The CPU bus.
    pub fn bus(&mut self) -> (r: &mut CpuBus)
        ensures
            r@ == old(self).machine().bus,
            final(self).machine() == mach(old(self).machine().cpu, final(r)@),
    {
        &mut self.cpu_bus
    }
}

} // verus!
