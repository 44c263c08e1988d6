use vstd::prelude::*;

verus! {

/// Size of the console's work RAM: 2 KiB.
pub const WRAM_SIZE: usize = 0x0800;

/// Size of the region that mirrors work RAM on the CPU bus ($0800-$1FFF).
pub const WRAM_MIRROR_SIZE: usize = 0x1800;

/// Work RAM: 2048 bytes, addressed 0..0x07FF. The stack lives at $0100-$01FF.
pub struct WRAM {
    memory: Vec<u8>,
}

impl View for WRAM {
    type V = Seq<u8>;

    closed spec fn view(&self) -> Seq<u8> {
        self.memory@
    }
}

/// A zero-filled byte vector of length `n`.
pub fn zeroed(n: usize) -> (r: Vec<u8>)
    ensures
        r@ == Seq::new(n as nat, |i: int| 0u8),
{
    let mut v: Vec<u8> = Vec::with_capacity(n);
    let mut i: usize = 0;
    while i < n
        invariant
            i <= n,
            v@ == Seq::new(i as nat, |k: int| 0u8),
        decreases n - i,
    {
        v.push(0);
        i = i + 1;
        assert(v@ =~= Seq::new(i as nat, |k: int| 0u8));
    }
    v
}

impl WRAM {
    /// Whether the memory has its fixed size.
    pub open spec fn wf(&self) -> bool {
        self@.len() == WRAM_SIZE
    }

    /// Work RAM as it is at power-on: all zero.
    pub fn new() -> (r: WRAM)
        ensures
            r.wf(),
            r@ == Seq::new(WRAM_SIZE as nat, |i: int| 0u8),
    {
        WRAM { memory: zeroed(WRAM_SIZE) }
    }

    /// The byte at `addr`.
    pub fn read(&self, addr: usize) -> (r: u8)
        requires
            self.wf(),
            addr < WRAM_SIZE,
        ensures
            r == self@[addr as int],
    {
        self.memory[addr]
    }

    /// Stores `data` at `addr`.
    pub fn write(&mut self, addr: usize, data: u8)
        requires
            old(self).wf(),
            addr < WRAM_SIZE,
        ensures
            final(self)@ == old(self)@.update(addr as int, data),
            final(self).wf(),
    {
        self.memory.set(addr, data);
    }
}

/// Backing store for the mirror region $0800-$1FFF. The CPU bus folds that region
/// onto work RAM, so this store is never addressed by it.
pub struct WRAMMirror {
    memory: Vec<u8>,
}

impl View for WRAMMirror {
    type V = Seq<u8>;

    closed spec fn view(&self) -> Seq<u8> {
        self.memory@
    }
}

impl WRAMMirror {
    /// A zero-filled mirror store of 0x1800 bytes.
    pub fn new() -> (r: WRAMMirror)
        ensures
            r@ == Seq::new(WRAM_MIRROR_SIZE as nat, |i: int| 0u8),
    {
        WRAMMirror { memory: zeroed(WRAM_MIRROR_SIZE) }
    }
}

} // verus!
