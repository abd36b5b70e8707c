use vstd::prelude::*;

verus! {

/// One entry of the sprite attribute memory.
///
/// Flags:
///  Bit7   BG and Window over OBJ (0=No, 1=BG and Window colors 1-3 over the OBJ)
///  Bit6   Y flip          (0=Normal, 1=Vertically mirrored)
///  Bit5   X flip          (0=Normal, 1=Horizontally mirrored)
///  Bit4   Palette number  **Non CGB Mode Only** (0=OBP0, 1=OBP1)
///  Bit3   Tile VRAM-Bank  **CGB Mode Only**     (0=Bank 0, 1=Bank 1)
///  Bit2-0 Palette number  **CGB Mode Only**     (OBP0-7)
#[derive(Debug, Clone, Copy, PartialEq, Eq)]
pub struct OAMEntry {
    pub y: u8,
    pub x: u8,
    pub tile: u8,
    pub flags: u8,
}

impl OAMEntry {
    /// Byte `byte` (0 to 3) of the entry.
    pub open spec fn spec_byte(&self, byte: usize) -> u8 {
        if byte == 0 {
            self.y
        } else if byte == 1 {
            self.x
        } else if byte == 2 {
            self.tile
        } else {
            self.flags
        }
    }

    pub fn new() -> (r: OAMEntry)
        ensures
            r == (OAMEntry { y: 0, x: 0, tile: 0, flags: 0 }),
    {
        OAMEntry { y: 0, x: 0, tile: 0, flags: 0 }
    }

    /// Writes byte `byte` (0 to 3) of the entry.
    pub fn write(&mut self, byte: usize, value: u8)
        requires
            byte < 4,
        ensures
            final(self).spec_byte(byte) == value,
            forall|b: usize| b < 4 && b != byte ==> final(self).spec_byte(b) == old(self).spec_byte(b),
    {
        match byte {
            0 => self.y = value,
            1 => self.x = value,
            2 => self.tile = value,
            _ => self.flags = value,
        }
    }

    /// Reads byte `byte` (0 to 3) of the entry.
    pub fn read(&self, byte: usize) -> (r: u8)
        requires
            byte < 4,
        ensures
            r == self.spec_byte(byte),
    {
        match byte {
            0 => self.y,
            1 => self.x,
            2 => self.tile,
            _ => self.flags,
        }
    }

    /// Whether the background and window colours 1 to 3 are drawn over the sprite.
    pub fn bg_over_obj(&self) -> (r: bool)
        ensures
            r == (self.flags >= 0x80),
    {
        let f = self.flags;
        proof { crate::bits::lemma_u8_bits(f); }
        assert((f & 0x80 != 0) == (f >= 0x80));
        self.flags & 0x80 != 0
    }

    /// Whether the sprite is mirrored vertically.
    pub fn y_flip(&self) -> (r: bool)
        ensures
            r == ((self.flags / 64) % 2 == 1),
    {
        let f = self.flags;
        proof { crate::bits::lemma_u8_bits(f); }
        assert((f & 0x40 != 0) == ((f / 64) % 2 == 1));
        self.flags & 0x40 != 0
    }

    /// Whether the sprite is mirrored horizontally.
    pub fn x_flip(&self) -> (r: bool)
        ensures
            r == ((self.flags / 32) % 2 == 1),
    {
        let f = self.flags;
        proof { crate::bits::lemma_u8_bits(f); }
        assert((f & 0x20 != 0) == ((f / 32) % 2 == 1));
        self.flags & 0x20 != 0
    }

    /// Whether the sprite uses the second object palette.
    pub fn palette_nb(&self) -> (r: bool)
        ensures
            r == ((self.flags / 16) % 2 == 1),
    {
        let f = self.flags;
        proof { crate::bits::lemma_u8_bits(f); }
        assert((f & 0x10 != 0) == ((f / 16) % 2 == 1));
        self.flags & 0x10 != 0
    }
}

} // verus!
