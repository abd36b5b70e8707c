use vstd::prelude::*;

verus! {

/// Size of the work RAM.
pub const WRAM_SIZE: usize = 0x2000;
/// Size of the high RAM.
pub const HRAM_SIZE: usize = 0x7F;

/// The work RAM (`0xC000..0xE000`) and the high RAM (`0xFF80..0xFFFF`).
pub struct RAM {
    pub wram: Vec<u8>,
    pub hram: Vec<u8>,
}

impl RAM {
    pub open spec fn wf(&self) -> bool {
        self.wram@.len() == WRAM_SIZE && self.hram@.len() == HRAM_SIZE
    }

    pub fn new() -> (r: RAM)
        ensures
            r.wf(),
            r.wram@ == Seq::new(WRAM_SIZE as nat, |i: int| 0u8),
            r.hram@ == Seq::new(HRAM_SIZE as nat, |i: int| 0u8),
    {
        RAM { wram: crate::cart::mbc1::zeroed(WRAM_SIZE), hram: crate::cart::mbc1::zeroed(HRAM_SIZE) }
    }

    pub fn wram_read(&self, address: u16) -> (r: u8)
        requires
            self.wf(),
            0xC000 <= address < 0xE000,
        ensures
            r == self.wram@[address - 0xC000],
    {
        self.wram[(address - 0xC000) as usize]
    }

    pub fn wram_write(&mut self, address: u16, value: u8)
        requires
            old(self).wf(),
            0xC000 <= address < 0xE000,
        ensures
            final(self).wf(),
            final(self).wram@ == old(self).wram@.update(address - 0xC000, value),
            final(self).hram == old(self).hram,
    {
        self.wram.set((address - 0xC000) as usize, value);
    }

    pub fn hram_read(&self, address: u16) -> (r: u8)
        requires
            self.wf(),
            0xFF80 <= address < 0xFFFF,
        ensures
            r == self.hram@[address - 0xFF80],
    {
        self.hram[(address - 0xFF80) as usize]
    }

    pub fn hram_write(&mut self, address: u16, value: u8)
        requires
            old(self).wf(),
            0xFF80 <= address < 0xFFFF,
        ensures
            final(self).wf(),
            final(self).hram@ == old(self).hram@.update(address - 0xFF80, value),
            final(self).wram == old(self).wram,
    {
        self.hram.set((address - 0xFF80) as usize, value);
    }
}

} // verus!
