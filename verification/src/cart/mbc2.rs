use vstd::prelude::*;
use super::header::CartridgeHeader;

verus! {

/// Size of the mapper's built-in RAM, in half-bytes.
pub const MBC2_RAM_SIZE: usize = 512;

/// The MBC2 mapper: up to 256 KiB of ROM and 512 half-bytes of built-in RAM.
pub struct MBC2 {
    pub rom_data: Vec<u8>,
    pub rom_bank_nb: u8,

    pub internal_ram: Vec<u8>,
    pub ram_enabled: bool,

    pub has_battery: bool,
    pub need_save: bool,
}

/// The built-in RAM of MBC2: 512 half-bytes, seen through the whole window
/// `0xA000..0xC000` (repeated every 512 bytes). With the RAM enabled, a
/// write stores the low four bits of the value at its address and at every
/// address 512 apart, and leaves the other half-bytes as they were.
pub proof fn lemma_mbc2_ram(m: MBC2, m1: MBC2, a: u16, v: u8, b: u16)
    requires
        m.wf(),
        m.ram_enabled,
        0xA000 <= a <= 0xBFFF,
        0xA000 <= b <= 0xBFFF,
        m.spec_write(&m1, a, v),
    ensures
        m1.spec_read(a) == v & 0x0F,
        (b - a) % 0x200 == 0 ==> m1.spec_read(b) == v & 0x0F,
        (b - a) % 0x200 != 0 ==> m1.spec_read(b) == m.spec_read(b),
        m.spec_read(b) < 16,
{
    crate::bits::lemma_u8_bits(v);
    assert((v % 16) % 16 == v % 16);
    if (b - a) % 0x200 == 0 {
        assert(b % 0x200 == a % 0x200);
    } else {
        assert(b % 0x200 != a % 0x200);
    }
}

impl MBC2 {
    /// Whether reading `address` is defined, computed.
    pub fn can_read(&self, address: u16) -> (r: bool)
        ensures
            r == self.readable(address),
    {
        if address <= 0x3FFF {
            (address as usize) < self.rom_data.len()
        } else if address <= 0x7FFF {
            let offset: usize = self.rom_bank_nb as usize * 0x4000 + (address % 0x4000) as usize;
            offset < self.rom_data.len()
        } else {
            0xA000 <= address && address <= 0xBFFF
        }
    }

    /// Whether writing at `address` is defined, computed.
    pub fn can_write(address: u16) -> (r: bool)
        ensures
            r == Self::writable(address),
    {
        address <= 0x7FFF || (0xA000 <= address && address <= 0xBFFF)
    }

    /// The invariant of the mapper's registers.
    pub open spec fn wf(&self) -> bool {
        &&& 1 <= self.rom_bank_nb <= 15
        &&& self.internal_ram@.len() == MBC2_RAM_SIZE
    }

    /// Whether reading `address` is defined (elsewhere it is not).
    pub open spec fn readable(&self, address: u16) -> bool {
        if address <= 0x3FFF {
            (address as int) < self.rom_data@.len()
        } else if address <= 0x7FFF {
            (self.rom_bank_nb as int) * 0x4000 + (address % 0x4000) < self.rom_data@.len()
        } else {
            0xA000 <= address <= 0xBFFF
        }
    }

    /// Whether writing at `address` is defined (elsewhere it is not).
    pub open spec fn writable(address: u16) -> bool {
        address <= 0x7FFF || 0xA000 <= address <= 0xBFFF
    }

    /// What reading `address` gives.
    pub open spec fn spec_read(&self, address: u16) -> u8 {
        if address <= 0x3FFF {
            self.rom_data@[address as int]
        } else if address <= 0x7FFF {
            self.rom_data@[(self.rom_bank_nb as int) * 0x4000 + (address % 0x4000)]
        } else if self.ram_enabled {
            self.internal_ram@[(address % 0x200) as int] % 16
        } else {
            0xFF
        }
    }

    /// What writing `value` at `address` does: `new` is the mapper after the write.
    pub open spec fn spec_write(&self, new: &Self, address: u16, value: u8) -> bool {
        &&& new.rom_data@ == self.rom_data@
        &&& new.has_battery == self.has_battery
        &&& if address <= 0x3FFF {
                &&& new.internal_ram@ == self.internal_ram@
                &&& new.need_save == self.need_save
                &&& if (address / 0x100) % 2 == 0 {
                        new.ram_enabled == (value % 16 == 0xA) && new.rom_bank_nb == self.rom_bank_nb
                    } else {
                        new.ram_enabled == self.ram_enabled
                        && new.rom_bank_nb == (if value % 16 == 0 { 1 } else { value % 16 })
                    }
            } else if 0xA000 <= address <= 0xBFFF && self.ram_enabled {
                &&& new.internal_ram@ == self.internal_ram@.update((address % 0x200) as int, value % 16)
                &&& new.need_save == (self.need_save || self.has_battery)
                &&& new.ram_enabled == self.ram_enabled
                &&& new.rom_bank_nb == self.rom_bank_nb
            } else {
                &&& new.internal_ram@ == self.internal_ram@
                &&& new.need_save == self.need_save
                &&& new.ram_enabled == self.ram_enabled
                &&& new.rom_bank_nb == self.rom_bank_nb
            }
    }

    pub fn new(header: &CartridgeHeader, rom_data: Vec<u8>) -> (r: MBC2)
        ensures
            r.wf(),
            r.rom_data@ == rom_data@,
            r.rom_bank_nb == 1,
            r.internal_ram@ == Seq::new(MBC2_RAM_SIZE as nat, |i: int| 0u8),
            !r.ram_enabled,
            r.has_battery == (header.cart_type == 0x06),
            !r.need_save,
    {
        MBC2 {
            rom_data,
            rom_bank_nb: 1,
            internal_ram: super::mbc1::zeroed(MBC2_RAM_SIZE),
            ram_enabled: false,
            has_battery: header.cart_type == 0x06,
            need_save: false,
        }
    }

    pub fn read(&self, address: u16) -> (r: u8)
        requires
            self.wf(),
            self.readable(address),
        ensures
            r == self.spec_read(address),
    {
        if address <= 0x3FFF {
            self.rom_data[address as usize]
        } else if address <= 0x7FFF {
            let bank = self.rom_bank_nb as usize;
            let a = address as usize;
            proof { crate::bits::lemma_bank_offset(bank, a); }
            self.rom_data[(self.rom_bank_nb as usize) << 14 | (address as usize & 0x3FFF)]
        } else if self.ram_enabled {
            let a = address as usize;
            proof { crate::bits::lemma_usize_bits(a); }
            let v = self.internal_ram[(address as usize) & 0x1FF];
            proof { crate::bits::lemma_u8_bits(v); }
            assert(v & 0xF == v % 16);
            v & 0xF
        } else {
            0xFF
        }
    }

    pub fn write(&mut self, address: u16, value: u8)
        requires
            old(self).wf(),
            MBC2::writable(address),
        ensures
            final(self).wf(),
            old(self).spec_write(final(self), address, value),
    {
        proof { crate::bits::lemma_u8_bits(value); }
        assert(value & 0xF == value % 16);
        if address <= 0x3FFF {
            proof { crate::bits::lemma_u16_bits(address); }
            if address & (1 << 8) == 0 {
                self.ram_enabled = (value & 0xF) == 0xA;
            } else {
                let b = value & 0xF;
                self.rom_bank_nb = if b < 1 { 1 } else { b };
            }
        } else if address <= 0x7FFF {
        } else {
            if self.ram_enabled {
                let a = address as usize;
                proof { crate::bits::lemma_usize_bits(a); }
                self.internal_ram.set((address as usize) & 0x1FF, value & 0xF);
                if self.has_battery {
                    self.need_save = true;
                }
            }
        }
    }

    /// Whether the battery-backed RAM changed since the last call; clears the mark.
    pub fn need_save(&mut self) -> (r: bool)
        ensures
            r == old(self).need_save,
            !final(self).need_save,
            *final(self) == (MBC2 { need_save: false, ..*old(self) }),
            final(self).rom_data == old(self).rom_data,
            final(self).rom_bank_nb == old(self).rom_bank_nb,
            final(self).internal_ram == old(self).internal_ram,
            final(self).ram_enabled == old(self).ram_enabled,
            final(self).has_battery == old(self).has_battery,
    {
        let need_save = self.need_save;
        if need_save {
            self.need_save = false;
        }
        need_save
    }

    /// The bytes of the save file: the built-in RAM.
    pub fn save(&self) -> (r: Vec<u8>)
        ensures
            r@ == self.internal_ram@,
    {
        self.internal_ram.clone()
    }

    /// Loads the built-in RAM from the bytes of a save file.
    pub fn load_save(&mut self, data: &Vec<u8>)
        requires
            old(self).wf(),
            data@.len() == MBC2_RAM_SIZE,
        ensures
            final(self).wf(),
            final(self).internal_ram@ == data@,
            final(self).rom_data == old(self).rom_data,
            final(self).rom_bank_nb == old(self).rom_bank_nb,
            final(self).ram_enabled == old(self).ram_enabled,
            final(self).has_battery == old(self).has_battery,
            final(self).need_save == old(self).need_save,
    {
        self.internal_ram = data.clone();
    }
}

} // verus!
