use vstd::prelude::*;

verus! {

/// A cartridge without mapper: 32 KiB of ROM, no RAM.
pub struct ROM {
    pub rom_data: Vec<u8>,
}

impl ROM {
    /// Whether reading `address` is defined, computed.
    pub fn can_read(&self, address: u16) -> (r: bool)
        ensures
            r == self.readable(address),
    {
        address < 0x8000 && (address as usize) < self.rom_data.len()
    }

    pub fn new(rom_data: Vec<u8>) -> (r: ROM)
        ensures
            r.rom_data@ == rom_data@,
    {
        ROM { rom_data }
    }

    /// Whether reading `address` is defined (elsewhere it is not).
    pub open spec fn readable(&self, address: u16) -> bool {
        address < 0x8000 && (address as int) < self.rom_data@.len()
    }

    pub fn read(&self, address: u16) -> (r: u8)
        requires
            self.readable(address),
        ensures
            r == self.rom_data@[address as int],
    {
        self.rom_data[address as usize]
    }
}

} // verus!
