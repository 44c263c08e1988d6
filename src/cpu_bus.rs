use vstd::prelude::*;
use crate::ppu::{advance, read_register_spec, write_register_spec, Ppu, PpuView};
use crate::wram::{WRAM, WRAM_SIZE};

verus! {

/// Size of one program ROM bank.
pub const PRG_BANK_SIZE: usize = 0x4000;

/// Everything that the CPU can reach through its bus.
pub struct BusView {
    pub wram: Seq<u8>,
    pub ppu: PpuView,
    pub prg: Seq<u8>,
}

impl BusView {
    pub open spec fn wf(self) -> bool {
        &&& self.wram.len() == WRAM_SIZE
        &&& self.ppu.wf()
        &&& (self.prg.len() == PRG_BANK_SIZE || self.prg.len() == 2 * PRG_BANK_SIZE)
    }
}

/// Index into program ROM for a CPU address in $8000-$FFFF; a 16 KiB ROM appears
/// twice.
pub open spec fn prg_index(b: BusView, addr: u16) -> int {
    if b.prg.len() == PRG_BANK_SIZE {
        (addr - 0x8000) % 0x4000
    } else {
        addr - 0x8000
    }
}

/// A CPU read of `addr`: work RAM (mirrored every 2 KiB below $2000), the PPU
/// registers (mirrored every 8 bytes below $4000), nothing (0) from $4000 to
/// $7FFF, and program ROM from $8000. Only a PPU register read changes state.
#[verifier::opaque]
pub open spec fn bus_read(b: BusView, addr: u16) -> (BusView, u8) {
    if addr < 0x2000 {
        (b, b.wram[(addr % 0x800) as int])
    } else if addr < 0x4000 {
        let (p, v) = read_register_spec(b.ppu, (0x2000 + addr % 8) as u16);
        (BusView { ppu: p, ..b }, v)
    } else if addr < 0x8000 {
        (b, 0)
    } else {
        (b, b.prg[prg_index(b, addr)])
    }
}

/// A CPU write of `data` to `addr`: work RAM and the PPU registers take it, with the
/// same mirroring as reads; everything else (APU and I/O, unmapped space, ROM)
/// discards it.
pub open spec fn bus_write(b: BusView, addr: u16, data: u8) -> BusView {
    if addr < 0x2000 {
        BusView { wram: b.wram.update((addr % 0x800) as int, data), ..b }
    } else if addr < 0x4000 {
        BusView { ppu: write_register_spec(b.ppu, (0x2000 + addr % 8) as u16, data), ..b }
    } else {
        b
    }
}

/// Connects the CPU to work RAM, the PPU registers and cartridge program ROM.
pub struct CpuBus {
    wram: WRAM,
    ppu: Ppu,
    prog_rom1: Vec<u8>,
}

impl View for CpuBus {
    type V = BusView;

    closed spec fn view(&self) -> BusView {
        BusView { wram: self.wram@, ppu: self.ppu@, prg: self.prog_rom1@ }
    }
}

impl CpuBus {
    pub open spec fn wf(&self) -> bool {
        self@.wf()
    }

    /// A bus over `wram`, `ppu` and the cartridge's program ROM `prog` (16 or 32 KiB).
    pub fn new(wram: WRAM, ppu: Ppu, prog: Vec<u8>) -> (r: CpuBus)
        requires
            wram.wf(),
            ppu.wf(),
            prog@.len() == PRG_BANK_SIZE || prog@.len() == 2 * PRG_BANK_SIZE,
        ensures
            r.wf(),
            r@ == (BusView { wram: wram@, ppu: ppu@, prg: prog@ }),
    {
        CpuBus { wram, ppu, prog_rom1: prog }
    }

    /// The PPU behind the bus.
    pub fn ppu(&self) -> (r: &Ppu)
        ensures
            r@ == self@.ppu,
            self.wf() ==> r.wf(),
    {
        &self.ppu
    }

    /// Reads a byte from the CPU's memory map.
    pub fn read(&mut self, addr: u16) -> (r: u8)
        requires
            old(self).wf(),
        ensures
            final(self).wf(),
            (final(self)@, r) == bus_read(old(self)@, addr),
    {
        reveal(bus_read);
        if addr < 0x2000 {
            self.wram.read((addr % 0x800) as usize)
        } else if addr < 0x4000 {
            let v = self.ppu.read_register(0x2000 + addr % 8);
            proof {
                assert(self@ =~= bus_read(old(self)@, addr).0);
            }
            v
        } else if addr < 0x8000 {
            0
        } else if self.prog_rom1.len() == PRG_BANK_SIZE {
            self.prog_rom1[((addr - 0x8000) % 0x4000) as usize]
        } else {
            self.prog_rom1[(addr - 0x8000) as usize]
        }
    }

    /// Writes a byte to the CPU's memory map and returns it.
    pub fn write(&mut self, addr: u16, data: u8) -> (r: u8)
        requires
            old(self).wf(),
        ensures
            final(self).wf(),
            final(self)@ == bus_write(old(self)@, addr, data),
            r == data,
    {
        if addr < 0x2000 {
            self.wram.write((addr % 0x800) as usize, data);
        } else if addr < 0x4000 {
            self.ppu.write_register(0x2000 + addr % 8, data);
        }
        proof {
            assert(self@ =~= bus_write(old(self)@, addr, data));
        }
        data
    }

    /// Runs the PPU for `dots` dots; returns whether it requested an NMI.
    pub fn run_ppu(&mut self, dots: usize) -> (nmi: bool)
        requires
            old(self).wf(),
        ensures
            final(self).wf(),
            (final(self)@.ppu, nmi) == advance(old(self)@.ppu, dots as nat),
            final(self)@.wram == old(self)@.wram,
            final(self)@.prg == old(self)@.prg,
    {
        self.ppu.run(dots)
    }
}

} // verus!
