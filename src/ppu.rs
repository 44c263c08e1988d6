use vstd::prelude::*;
use crate::screen::{Screen, SCREEN_HEIGHT, SCREEN_PIXELS, SCREEN_WIDTH};

verus! {

/// Size of the character ROM (pattern tables) on an NROM cartridge.
pub const CHR_SIZE: usize = 0x2000;

/// Physical name-table and attribute-table memory: two 1 KiB tables.
pub const NAME_TABLE_SIZE: usize = 0x0800;

/// Palette memory.
pub const PALETTE_SIZE: usize = 0x20;

/// Dots on one scanline.
pub const DOTS_PER_LINE: u16 = 341;

/// Scanlines in one frame.
pub const LINES_PER_FRAME: u16 = 262;

/// The eight CPU-visible PPU registers, $2000-$2007.
#[derive(Clone, Copy, Debug)]
pub struct Register {
    /// $2000 PPUCTRL: bit 7 NMI at VBLANK, bit 4 background pattern table, bit 2
    /// address increment (1 or 32).
    pub ppuctrl: u8,
    /// $2001 PPUMASK.
    pub ppumask: u8,
    /// $2002 PPUSTATUS: bit 7 VBLANK, bit 6 sprite-zero hit.
    pub ppustatus: u8,
    /// $2003 OAMADDR.
    pub oamaddr: u8,
    /// $2004 OAMDATA.
    pub oamdata: u8,
    /// $2005 PPUSCROLL: the last byte written.
    pub ppuscroll: u8,
    /// $2006 PPUADDR: the last byte written.
    pub ppuaddr: u8,
    /// $2007 PPUDATA: the last byte written.
    pub ppudata: u8,
}

impl Register {
    /// All registers zero, as at power-on.
    pub fn new() -> (r: Register)
        ensures
            r == Register::zero(),
    {
        Register {
            ppuctrl: 0,
            ppumask: 0,
            ppustatus: 0,
            oamaddr: 0,
            oamdata: 0,
            ppuscroll: 0,
            ppuaddr: 0,
            ppudata: 0,
        }
    }

    pub open spec fn zero() -> Register {
        Register {
            ppuctrl: 0,
            ppumask: 0,
            ppustatus: 0,
            oamaddr: 0,
            oamdata: 0,
            ppuscroll: 0,
            ppuaddr: 0,
            ppudata: 0,
        }
    }
}

/// One entry of object attribute memory. Sprites are not composed by this core.
#[derive(Clone, Copy, Debug)]
pub struct Sprite {
    /// Top edge minus one.
    pub y: u8,
    /// Tile index.
    pub tile: u8,
    /// Flip, priority and palette bits.
    pub attr: u8,
    /// Left edge.
    pub x: u8,
}

/// The PPU's own address space: character ROM, name/attribute tables, palette RAM,
/// and the frame buffer it publishes to.
pub struct PpuBus {
    pub screen: Screen,
    pub chr: Vec<u8>,
    pub name_table: Vec<u8>,
    pub palette: Vec<u8>,
}

impl PpuBus {
    /// A bus with zeroed memory that publishes into `screen`.
    pub fn new(screen: Screen) -> (r: PpuBus)
        requires
            screen.wf(),
        ensures
            r.screen == screen,
            r.chr@ == Seq::new(CHR_SIZE as nat, |i: int| 0u8),
            r.name_table@ == Seq::new(NAME_TABLE_SIZE as nat, |i: int| 0u8),
            r.palette@ == Seq::new(PALETTE_SIZE as nat, |i: int| 0u8),
    {
        PpuBus {
            screen,
            chr: crate::wram::zeroed(CHR_SIZE),
            name_table: crate::wram::zeroed(NAME_TABLE_SIZE),
            palette: crate::wram::zeroed(PALETTE_SIZE),
        }
    }
}

/// Everything that determines the PPU's behaviour.
pub struct PpuView {
    pub register: Register,
    /// Current 14-bit address into PPU memory.
    pub vram_addr: u16,
    /// True when the next $2005/$2006 write is the second of its pair.
    pub addr_latch: bool,
    /// The byte that the next non-palette $2007 read returns.
    pub read_buffer: u8,
    pub scroll_x: u8,
    pub scroll_y: u8,
    /// False until the first dot has run. From then on `dot`, `line` and `frame`
    /// name the dot that ran last; before, they name the first dot to run.
    pub started: bool,
    pub dot: u16,
    pub line: u16,
    pub frame: u64,
    pub chr: Seq<u8>,
    pub name_table: Seq<u8>,
    pub palette: Seq<u8>,
    pub screen: Seq<u8>,
}

impl PpuView {
    pub open spec fn wf(self) -> bool {
        &&& self.vram_addr < 0x4000
        &&& self.dot < DOTS_PER_LINE
        &&& self.line < LINES_PER_FRAME
        &&& self.chr.len() == CHR_SIZE
        &&& self.name_table.len() == NAME_TABLE_SIZE
        &&& self.palette.len() == PALETTE_SIZE
        &&& self.screen.len() == SCREEN_PIXELS
    }
}

/// Index into the physical name tables for a PPU address in $2000-$3EFF. The
/// region $3000-$3EFF repeats $2000-$2EFF, and the four logical tables are folded
/// onto two with horizontal mirroring: $2000 = $2400 and $2800 = $2C00.
pub open spec fn name_table_index(a: u16) -> int {
    let off = (a - 0x2000) % 0x1000;
    (off / 0x800) * 0x400 + off % 0x400
}

/// Index into palette RAM for a PPU address in $3F00-$3FFF. Entries $10, $14, $18
/// and $1C are the same cells as $00, $04, $08 and $0C.
pub open spec fn palette_index(a: u16) -> int {
    let i = (a - 0x3F00) % 0x20;
    if i >= 0x10 && i % 4 == 0 {
        i - 0x10
    } else {
        i
    }
}

/// The byte that PPU address `addr` (taken modulo $4000) holds.
pub open spec fn ppu_mem(p: PpuView, addr: u16) -> u8 {
    let a = (addr % 0x4000) as u16;
    if a < 0x2000 {
        p.chr[a as int]
    } else if a < 0x3F00 {
        p.name_table[name_table_index(a)]
    } else {
        p.palette[palette_index(a)]
    }
}

/// PPU memory after storing `data` at `addr` (modulo $4000). Character ROM is
/// read-only: a store there changes nothing.
pub open spec fn ppu_mem_write(p: PpuView, addr: u16, data: u8) -> PpuView {
    let a = (addr % 0x4000) as u16;
    if a < 0x2000 {
        p
    } else if a < 0x3F00 {
        PpuView { name_table: p.name_table.update(name_table_index(a), data), ..p }
    } else {
        PpuView { palette: p.palette.update(palette_index(a), data), ..p }
    }
}

/// `vram_addr` after a $2007 access: up by 32 when PPUCTRL bit 2 is set, else by 1,
/// within the 14-bit space.
pub open spec fn next_vram_addr(p: PpuView) -> u16 {
    let step: u16 = if p.register.ppuctrl & 0x04 != 0 {
        32
    } else {
        1
    };
    ((p.vram_addr + step) % 0x4000) as u16
}

/// A CPU read of PPU register `addr % 8`: the new state and the byte returned.
pub open spec fn read_register_spec(p: PpuView, addr: u16) -> (PpuView, u8) {
    let r = addr % 8;
    if r == 0 {
        (p, p.register.ppuctrl)
    } else if r == 1 {
        (p, p.register.ppumask)
    } else if r == 2 {
        (
            PpuView {
                register: Register { ppustatus: p.register.ppustatus & 0x7f, ..p.register },
                addr_latch: false,
                ..p
            },
            p.register.ppustatus,
        )
    } else if r == 3 {
        (p, p.register.oamaddr)
    } else if r == 4 {
        (p, p.register.oamdata)
    } else if r == 5 {
        (p, p.register.ppuscroll)
    } else if r == 6 {
        (p, p.register.ppuaddr)
    } else {
        let a = p.vram_addr;
        let q = PpuView { vram_addr: next_vram_addr(p), ..p };
        if a >= 0x3F00 {
            (PpuView { read_buffer: ppu_mem(p, (a - 0x1000) as u16), ..q }, ppu_mem(p, a))
        } else {
            (PpuView { read_buffer: ppu_mem(p, a), ..q }, p.read_buffer)
        }
    }
}

/// A CPU write of `data` to PPU register `addr % 8`.
pub open spec fn write_register_spec(p: PpuView, addr: u16, data: u8) -> PpuView {
    let r = addr % 8;
    if r == 0 {
        PpuView { register: Register { ppuctrl: data, ..p.register }, ..p }
    } else if r == 1 {
        PpuView { register: Register { ppumask: data, ..p.register }, ..p }
    } else if r == 2 {
        PpuView { register: Register { ppustatus: data, ..p.register }, ..p }
    } else if r == 3 {
        PpuView { register: Register { oamaddr: data, ..p.register }, ..p }
    } else if r == 4 {
        PpuView { register: Register { oamdata: data, ..p.register }, ..p }
    } else if r == 5 {
        let q = PpuView {
            register: Register { ppuscroll: data, ..p.register },
            addr_latch: !p.addr_latch,
            ..p
        };
        if p.addr_latch {
            PpuView { scroll_y: data, ..q }
        } else {
            PpuView { scroll_x: data, ..q }
        }
    } else if r == 6 {
        let vram_addr: u16 = if p.addr_latch {
            ((p.vram_addr / 256) * 256 + data) as u16
        } else {
            ((data % 0x40) * 256 + p.vram_addr % 256) as u16
        };
        PpuView {
            register: Register { ppuaddr: data, ..p.register },
            addr_latch: !p.addr_latch,
            vram_addr,
            ..p
        }
    } else {
        let q = ppu_mem_write(p, p.vram_addr, data);
        PpuView {
            register: Register { ppudata: data, ..p.register },
            vram_addr: next_vram_addr(p),
            ..q
        }
    }
}

/// The six-bit palette index of background pixel (`x`, `y`): the name table at
/// $2000 names the tile, the pattern table chosen by PPUCTRL bit 4 gives its two
/// bit planes (bit 7 leftmost), and the attribute table at $23C0 picks one of four
/// palettes for each 2x2-tile block. Colour 0 is the shared background at $3F00.
pub open spec fn background_pixel(p: PpuView, x: u16, y: u16) -> u8 {
    let tile = ppu_mem(p, (0x2000 + (y / 8) * 32 + x / 8) as u16);
    let base: u16 = if p.register.ppuctrl & 0x10 != 0 {
        0x1000
    } else {
        0
    };
    let row = (base + tile * 16 + y % 8) as u16;
    let low = ppu_mem(p, row);
    let high = ppu_mem(p, (row + 8) as u16);
    let shift = (7 - x % 8) as u8;
    let color = (((high >> shift) % 2) * 2 + (low >> shift) % 2) as u8;
    let attr = ppu_mem(p, (0x23C0 + (y / 32) * 8 + x / 32) as u16);
    let selector = (attr >> ((((y / 16) % 2) * 4 + ((x / 16) % 2) * 2) as u8)) % 4;
    let index = if color == 0 {
        ppu_mem(p, 0x3F00)
    } else {
        ppu_mem(p, (0x3F00 + selector * 4 + color) as u16)
    };
    index & 0x3f
}

/// The frame composed from PPU memory, row-major.
pub open spec fn compose(p: PpuView) -> Seq<u8> {
    Seq::new(SCREEN_PIXELS as nat, |i: int| background_pixel(p, (i % 256) as u16, (i / 256) as u16))
}

/// What happens on entering a scanline: the frame is composed at line 240; VBLANK
/// is raised at line 241, with an NMI request when PPUCTRL bit 7 is set; VBLANK and
/// sprite-zero hit are cleared at line 261. The flag is the NMI request.
pub open spec fn enter_line(p: PpuView) -> (PpuView, bool) {
    if p.line == 240 {
        (PpuView { screen: compose(p), ..p }, false)
    } else if p.line == 241 {
        (
            PpuView { register: Register { ppustatus: p.register.ppustatus | 0x80, ..p.register }, ..p },
            p.register.ppuctrl & 0x80 != 0,
        )
    } else if p.line == 261 {
        (PpuView { register: Register { ppustatus: p.register.ppustatus & 0x3f, ..p.register }, ..p }, false)
    } else {
        (p, false)
    }
}

/// One dot: 341 dots make a line, 262 lines a frame. The first dot after power-on
/// is dot 0 of line 0 of frame 0.
pub open spec fn tick(p: PpuView) -> (PpuView, bool) {
    if !p.started {
        (PpuView { started: true, ..p }, false)
    } else if p.dot + 1 < DOTS_PER_LINE {
        (PpuView { dot: (p.dot + 1) as u16, ..p }, false)
    } else if p.line + 1 == LINES_PER_FRAME {
        let frame: u64 = if p.frame == u64::MAX {
            0
        } else {
            (p.frame + 1) as u64
        };
        (PpuView { dot: 0, line: 0, frame, ..p }, false)
    } else {
        enter_line(PpuView { dot: 0, line: (p.line + 1) as u16, ..p })
    }
}

/// `n` dots in a row; the flag tells whether any of them requested an NMI.
pub open spec fn advance(p: PpuView, n: nat) -> (PpuView, bool)
    decreases n,
{
    if n == 0 {
        (p, false)
    } else {
        let (q, f) = advance(p, (n - 1) as nat);
        let (r, g) = tick(q);
        (r, f || g)
    }
}

/// Round trip through PPUDATA: two PPUADDR writes (high byte, then low) select
/// address `a`, a PPUDATA write stores `d` there, two more PPUADDR writes select `a`
/// again, and PPUDATA reads give `d` back. A palette address answers at once; any
/// other answers on the second read, as the first only fills the one-byte buffer.
/// Character ROM ignores stores, so `a` lies in $2000-$3FFF; and the second read
/// must not step into palette memory, whose reads bypass the buffer.
pub proof fn lemma_vram_round_trip(p: PpuView, a: u16, d: u8)
    requires
        p.wf(),
        !p.addr_latch,
        0x2000 <= a < 0x4000,
        a < 0x3F00 ==> next_vram_addr(PpuView { vram_addr: a, ..p }) < 0x3F00,
    ensures
        ({
            let s1 = write_register_spec(p, 0x2006, (a / 256) as u8);
            let s2 = write_register_spec(s1, 0x2006, (a % 256) as u8);
            let s3 = write_register_spec(s2, 0x2007, d);
            let s4 = write_register_spec(s3, 0x2006, (a / 256) as u8);
            let s5 = write_register_spec(s4, 0x2006, (a % 256) as u8);
            let (s6, first) = read_register_spec(s5, 0x2007);
            let (s7, second) = read_register_spec(s6, 0x2007);
            if a >= 0x3F00 {
                first == d
            } else {
                second == d
            }
        }),
{
    let s1 = write_register_spec(p, 0x2006, (a / 256) as u8);
    let s2 = write_register_spec(s1, 0x2006, (a % 256) as u8);
    assert(s2.vram_addr == a);
    let s3 = write_register_spec(s2, 0x2007, d);
    assert(ppu_mem(s3, a) == d);
    let s4 = write_register_spec(s3, 0x2006, (a / 256) as u8);
    let s5 = write_register_spec(s4, 0x2006, (a % 256) as u8);
    assert(s5.vram_addr == a);
    assert(ppu_mem(s5, a) == d);
}

/// The picture processing unit.
pub struct Ppu {
    pub register: Register,
    vram_addr: u16,
    addr_latch: bool,
    read_buffer: u8,
    scroll_x: u8,
    scroll_y: u8,
    started: bool,
    pub ppu_bus: PpuBus,
    /// Dot within the current line.
    cycles: u16,
    /// Current line.
    lines: u16,
    pub frames: u64,
}

impl View for Ppu {
    type V = PpuView;

    closed spec fn view(&self) -> PpuView {
        PpuView {
            register: self.register,
            vram_addr: self.vram_addr,
            addr_latch: self.addr_latch,
            read_buffer: self.read_buffer,
            scroll_x: self.scroll_x,
            scroll_y: self.scroll_y,
            started: self.started,
            dot: self.cycles,
            line: self.lines,
            frame: self.frames,
            chr: self.ppu_bus.chr@,
            name_table: self.ppu_bus.name_table@,
            palette: self.ppu_bus.palette@,
            screen: self.ppu_bus.screen.screen@,
        }
    }
}

/// The state at power-on, publishing into a frame buffer that holds `screen`.
pub open spec fn power_on(screen: Seq<u8>) -> PpuView {
    PpuView {
        register: Register::zero(),
        vram_addr: 0,
        addr_latch: false,
        read_buffer: 0,
        scroll_x: 0,
        scroll_y: 0,
        started: false,
        dot: 0,
        line: 0,
        frame: 0,
        chr: Seq::new(CHR_SIZE as nat, |i: int| 0u8),
        name_table: Seq::new(NAME_TABLE_SIZE as nat, |i: int| 0u8),
        palette: Seq::new(PALETTE_SIZE as nat, |i: int| 0u8),
        screen,
    }
}

impl Ppu {
    pub open spec fn wf(&self) -> bool {
        self@.wf()
    }

    /// A PPU at line 0, dot 0, frame 0, with zeroed registers and memory.
    pub fn new(screen: Screen) -> (r: Ppu)
        requires
            screen.wf(),
        ensures
            r.wf(),
            r@ == power_on(screen.screen@),
    {
        let ppu = Ppu {
            register: Register::new(),
            vram_addr: 0,
            addr_latch: false,
            read_buffer: 0,
            scroll_x: 0,
            scroll_y: 0,
            started: false,
            ppu_bus: PpuBus::new(screen),
            cycles: 0,
            lines: 0,
            frames: 0,
        };
        assert(ppu@ =~= power_on(screen.screen@));
        ppu
    }

    /// Stores the cartridge's character ROM as the pattern tables.
    pub fn load_pattern_table(&mut self, chrs: Vec<u8>)
        requires
            old(self).wf(),
            chrs@.len() == CHR_SIZE,
        ensures
            final(self).wf(),
            final(self)@ == (PpuView { chr: chrs@, ..old(self)@ }),
    {
        self.ppu_bus.chr = chrs;
    }

    /// Current dot within the line (0..340).
    pub fn dot(&self) -> (r: u16)
        ensures
            r == self@.dot,
    {
        self.cycles
    }

    /// Current scanline (0..261).
    pub fn line(&self) -> (r: u16)
        ensures
            r == self@.line,
    {
        self.lines
    }

    /// Current address into PPU memory.
    pub fn vram_addr(&self) -> (r: u16)
        ensures
            r == self@.vram_addr,
    {
        self.vram_addr
    }

    /// The byte at PPU address `addr` (modulo $4000).
    pub fn read_vram(&self, addr: u16) -> (r: u8)
        requires
            self.wf(),
        ensures
            r == ppu_mem(self@, addr),
    {
        let a = addr % 0x4000;
        if a < 0x2000 {
            self.ppu_bus.chr[a as usize]
        } else if a < 0x3F00 {
            let off = (a - 0x2000) % 0x1000;
            self.ppu_bus.name_table[((off / 0x800) * 0x400 + off % 0x400) as usize]
        } else {
            let i = (a - 0x3F00) % 0x20;
            let j = if i >= 0x10 && i % 4 == 0 {
                i - 0x10
            } else {
                i
            };
            self.ppu_bus.palette[j as usize]
        }
    }

    /// Stores `data` at PPU address `addr` (modulo $4000) and returns it; a store
    /// into character ROM is discarded.
    pub fn write_vram(&mut self, addr: u16, data: u8) -> (r: u8)
        requires
            old(self).wf(),
        ensures
            final(self).wf(),
            final(self)@ == ppu_mem_write(old(self)@, addr, data),
            r == data,
    {
        let a = addr % 0x4000;
        if a < 0x2000 {
        } else if a < 0x3F00 {
            let off = (a - 0x2000) % 0x1000;
            self.ppu_bus.name_table.set(((off / 0x800) * 0x400 + off % 0x400) as usize, data);
        } else {
            let i = (a - 0x3F00) % 0x20;
            let j = if i >= 0x10 && i % 4 == 0 {
                i - 0x10
            } else {
                i
            };
            self.ppu_bus.palette.set(j as usize, data);
        }
        proof {
            assert(self@ =~= ppu_mem_write(old(self)@, addr, data));
        }
        data
    }

    fn increment_vram_addr(&mut self)
        requires
            old(self).wf(),
        ensures
            final(self).wf(),
            final(self)@ == (PpuView { vram_addr: next_vram_addr(old(self)@), ..old(self)@ }),
    {
        let step: u16 = if self.register.ppuctrl & 0x04 != 0 {
            32
        } else {
            1
        };
        self.vram_addr = (self.vram_addr + step) % 0x4000;
    }

    /// CPU-side read of PPU register `addr % 8`. Reading PPUSTATUS clears its
    /// VBLANK bit and resets the $2005/$2006 write toggle; reading PPUDATA returns the
    /// buffered byte (or, for palette addresses, the byte itself) and moves on.
    pub fn read_register(&mut self, addr: u16) -> (r: u8)
        requires
            old(self).wf(),
        ensures
            final(self).wf(),
            (final(self)@, r) == read_register_spec(old(self)@, addr),
    {
        let reg = addr % 8;
        if reg == 0 {
            self.register.ppuctrl
        } else if reg == 1 {
            self.register.ppumask
        } else if reg == 2 {
            let status = self.register.ppustatus;
            self.register.ppustatus = status & 0x7f;
            self.addr_latch = false;
            status
        } else if reg == 3 {
            self.register.oamaddr
        } else if reg == 4 {
            self.register.oamdata
        } else if reg == 5 {
            self.register.ppuscroll
        } else if reg == 6 {
            self.register.ppuaddr
        } else {
            let a = self.vram_addr;
            let result = if a >= 0x3F00 {
                let v = self.read_vram(a);
                self.read_buffer = self.read_vram(a - 0x1000);
                v
            } else {
                let v = self.read_buffer;
                self.read_buffer = self.read_vram(a);
                v
            };
            self.increment_vram_addr();
            proof {
                let q = PpuView { vram_addr: next_vram_addr(old(self)@), ..old(self)@ };
                if a >= 0x3F00 {
                    assert(self@ =~= PpuView { read_buffer: ppu_mem(old(self)@, (a - 0x1000) as u16), ..q });
                } else {
                    assert(self@ =~= PpuView { read_buffer: ppu_mem(old(self)@, a), ..q });
                }
            }
            result
        }
    }

    /// CPU-side write of `data` to PPU register `addr % 8`; returns `data`.
    /// PPUSCROLL and PPUADDR take two writes each, sharing one toggle; PPUADDR's
    /// first write is the high byte. PPUDATA stores through the PPU bus and moves on.
    /// Enabling NMI in PPUCTRL while VBLANK is already set does not request an NMI
    /// at once; the next VBLANK does.
    pub fn write_register(&mut self, addr: u16, data: u8) -> (r: u8)
        requires
            old(self).wf(),
        ensures
            final(self).wf(),
            final(self)@ == write_register_spec(old(self)@, addr, data),
            r == data,
    {
        let reg = addr % 8;
        if reg == 0 {
            self.register.ppuctrl = data;
        } else if reg == 1 {
            self.register.ppumask = data;
        } else if reg == 2 {
            self.register.ppustatus = data;
        } else if reg == 3 {
            self.register.oamaddr = data;
        } else if reg == 4 {
            self.register.oamdata = data;
        } else if reg == 5 {
            self.register.ppuscroll = data;
            if self.addr_latch {
                self.scroll_y = data;
            } else {
                self.scroll_x = data;
            }
            self.addr_latch = !self.addr_latch;
        } else if reg == 6 {
            self.register.ppuaddr = data;
            if self.addr_latch {
                self.vram_addr = (self.vram_addr / 256) * 256 + data as u16;
            } else {
                self.vram_addr = ((data % 0x40) as u16) * 256 + self.vram_addr % 256;
            }
            self.addr_latch = !self.addr_latch;
        } else {
            let a = self.vram_addr;
            self.write_vram(a, data);
            self.register.ppudata = data;
            self.increment_vram_addr();
        }
        proof {
            assert(self@ =~= write_register_spec(old(self)@, addr, data));
        }
        data
    }

    fn pixel(&self, x: u16, y: u16) -> (r: u8)
        requires
            self.wf(),
            x < 256,
            y < 240,
        ensures
            r == background_pixel(self@, x, y),
    {
        let tile = self.read_vram(0x2000 + (y / 8) * 32 + x / 8);
        let base: u16 = if self.register.ppuctrl & 0x10 != 0 {
            0x1000
        } else {
            0
        };
        let row = base + (tile as u16) * 16 + y % 8;
        let low = self.read_vram(row);
        let high = self.read_vram(row + 8);
        let shift = (7 - x % 8) as u8;
        let color = ((high >> shift) % 2) * 2 + (low >> shift) % 2;
        let attr = self.read_vram(0x23C0 + (y / 32) * 8 + x / 32);
        let selector = (attr >> ((((y / 16) % 2) * 4 + ((x / 16) % 2) * 2) as u8)) % 4;
        let index = if color == 0 {
            self.read_vram(0x3F00)
        } else {
            self.read_vram(0x3F00 + (selector as u16) * 4 + color as u16)
        };
        index & 0x3f
    }

    /// Composes the background from VRAM: 240 rows of 256 six-bit palette indices.
    pub fn build_screen(&self) -> (r: Vec<Vec<u8>>)
        requires
            self.wf(),
        ensures
            crate::screen::is_frame_grid(r@),
            forall|y: int, x: int|
                0 <= y < 240 && 0 <= x < 256 ==> #[trigger] r@[y]@[x] == background_pixel(
                    self@,
                    x as u16,
                    y as u16,
                ),
    {
        let mut rows: Vec<Vec<u8>> = Vec::with_capacity(SCREEN_HEIGHT);
        let mut y: u16 = 0;
        while y < 240
            invariant
                y <= 240,
                self.wf(),
                rows@.len() == y,
                forall|j: int| 0 <= j < y ==> (#[trigger] rows@[j])@.len() == 256,
                forall|j: int, x: int|
                    0 <= j < y && 0 <= x < 256 ==> #[trigger] rows@[j]@[x] == background_pixel(
                        self@,
                        x as u16,
                        j as u16,
                    ),
            decreases 240 - y,
        {
            let mut row: Vec<u8> = Vec::with_capacity(SCREEN_WIDTH);
            let mut x: u16 = 0;
            while x < 256
                invariant
                    x <= 256,
                    y < 240,
                    self.wf(),
                    row@.len() == x,
                    forall|i: int| 0 <= i < x ==> #[trigger] row@[i] == background_pixel(self@, i as u16, y),
                decreases 256 - x,
            {
                let v = self.pixel(x, y);
                row.push(v);
                x = x + 1;
            }
            rows.push(row);
            y = y + 1;
        }
        rows
    }

    fn enter_line(&mut self) -> (nmi: bool)
        requires
            old(self).wf(),
        ensures
            final(self).wf(),
            (final(self)@, nmi) == enter_line(old(self)@),
    {
        if self.lines == 240 {
            let pixels = self.build_screen();
            self.ppu_bus.screen.draw(pixels);
            proof {
                assert(self@.screen =~= compose(old(self)@));
                assert(self@ =~= enter_line(old(self)@).0);
            }
            false
        } else if self.lines == 241 {
            self.register.ppustatus = self.register.ppustatus | 0x80;
            self.register.ppuctrl & 0x80 != 0
        } else if self.lines == 261 {
            self.register.ppustatus = self.register.ppustatus & 0x3f;
            false
        } else {
            false
        }
    }

    fn tick(&mut self) -> (nmi: bool)
        requires
            old(self).wf(),
        ensures
            final(self).wf(),
            (final(self)@, nmi) == tick(old(self)@),
    {
        if !self.started {
            self.started = true;
            false
        } else if self.cycles + 1 < DOTS_PER_LINE {
            self.cycles = self.cycles + 1;
            false
        } else if self.lines + 1 == LINES_PER_FRAME {
            self.cycles = 0;
            self.lines = 0;
            self.frames = if self.frames == u64::MAX {
                0
            } else {
                self.frames + 1
            };
            false
        } else {
            self.cycles = 0;
            self.lines = self.lines + 1;
            self.enter_line()
        }
    }

    /// Runs `cycles` PPU dots. Returns whether any of them requested an NMI, which
    /// the caller hands to the CPU.
    pub fn run(&mut self, cycles: usize) -> (nmi: bool)
        requires
            old(self).wf(),
        ensures
            final(self).wf(),
            (final(self)@, nmi) == advance(old(self)@, cycles as nat),
    {
        let mut nmi = false;
        let mut i: usize = 0;
        while i < cycles
            invariant
                i <= cycles,
                self.wf(),
                (self@, nmi) == advance(old(self)@, i as nat),
            decreases cycles - i,
        {
            let raised = self.tick();
            nmi = nmi || raised;
            i = i + 1;
        }
        nmi
    }
}

} // verus!
