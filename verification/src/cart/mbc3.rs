use vstd::prelude::*;
use super::header::CartridgeHeader;
use super::mbc1::{ram_bank_count, ram_banks_of, ram_size_supported, zeroed, RAM_BANK_SIZE};

pub mod rtc;
use rtc::{RTC, spec_update, spec_rtc_read, spec_rtc_write, spec_rtc_latch, current_unix_time};

verus! {

/// What the window `0xA000..0xC000` shows.
#[derive(Debug, Clone, Copy, PartialEq, Eq)]
pub enum MappedMemory {
    RamBank(u8),
    RtcRegister(u8),
}

/// The MBC3 mapper: up to 2 MiB of ROM, 32 KiB of RAM and a real-time clock.
pub struct MBC3 {
    pub rom_data: Vec<u8>,
    pub active_rom_bank: usize,
    pub rom_bank_nb: usize,

    pub ram_rtc_enabled: bool,
    pub mapped_memory: MappedMemory,
    pub previous_latch: u8,

    /// The RAM banks, one after the other.
    pub ram: Vec<u8>,
    pub ram_bank_count: usize,
    pub rtc: RTC,

    pub battery_present: bool,
    pub timer_present: bool,
    pub need_save: bool,
}

/// MBC3 banking: after `v` is written to `0x2000..0x4000`, `0x4000..0x8000`
/// shows ROM bank `v` (its seven low bits, 0 meaning 1) modulo the bank
/// count; with RAM bank `k` mapped and RAM enabled, `0xA000..0xC000` shows
/// bank `k`'s bytes, and a write there is read back.
pub proof fn lemma_mbc3_banks(m: MBC3, m1: MBC3, v: u8, a: u16, now: u64, t: u64)
    requires
        m.wf(),
        m.rom_bank_nb > 0,
    ensures
        m.spec_write(&m1, 0x2000, v, now) && 0x4000 <= a <= 0x7FFF ==> m1.spec_read(a, t)
            == m.rom_data@[((if v % 128 == 0 { 1 } else { v % 128 } as int) % (m.rom_bank_nb as int)) * 0x4000 + (a - 0x4000)],
        (m.ram_rtc_enabled && 0xA000 <= a <= 0xBFFF && m.mapped_memory is RamBank
            && (m.mapped_memory->RamBank_0 as int) < m.ram_bank_count) ==> {
            &&& m.spec_read(a, t) == m.ram@[m.mapped_memory->RamBank_0 as int * 0x2000 + (a - 0xA000)]
            &&& m.spec_write(&m1, a, v, now) ==> m1.spec_read(a, t) == v
        },
{
}

impl MBC3 {
    /// Whether reading `address` is defined, computed.
    pub fn can_read(&self, address: u16) -> (r: bool)
        ensures
            r == self.readable(address),
    {
        if address <= 0x3FFF {
            (address as usize) < self.rom_data.len()
        } else if address <= 0x7FFF {
            self.rom_bank_nb > 0
        } else {
            0xA000 <= address && address <= 0xBFFF
        }
    }

    /// Whether writing at `address` is defined, computed.
    pub fn can_write(&self, address: u16) -> (r: bool)
        ensures
            r == self.writable(address),
    {
        let mapped_ok = match self.mapped_memory {
            MappedMemory::RamBank(idx) => (idx as usize) < self.ram_bank_count,
            MappedMemory::RtcRegister(_) => true,
        };
        (address <= 0x7FFF || (0xA000 <= address && address <= 0xBFFF))
            && (!(0xA000 <= address && self.ram_rtc_enabled) || mapped_ok)
    }

    /// The invariant of the mapper's registers.
    pub open spec fn wf(&self) -> bool {
        &&& self.rom_bank_nb == self.rom_data@.len() / 0x4000
        &&& 1 <= self.active_rom_bank <= 0x7F
        &&& self.ram_bank_count <= 16
        &&& self.ram@.len() == self.ram_bank_count * RAM_BANK_SIZE
        &&& self.rtc.wf()
    }

    /// Whether reading `address` is defined (elsewhere it is not).
    pub open spec fn readable(&self, address: u16) -> bool {
        if address <= 0x3FFF {
            (address as int) < self.rom_data@.len()
        } else if address <= 0x7FFF {
            self.rom_bank_nb > 0
        } else {
            0xA000 <= address <= 0xBFFF
        }
    }

    /// Whether writing at `address` is defined (elsewhere it is not).
    pub open spec fn writable(&self, address: u16) -> bool {
        &&& address <= 0x7FFF || 0xA000 <= address <= 0xBFFF
        &&& (0xA000 <= address && self.ram_rtc_enabled) ==> match self.mapped_memory {
                MappedMemory::RamBank(idx) => (idx as int) < self.ram_bank_count,
                MappedMemory::RtcRegister(_) => true,
            }
    }

    /// Whether reading `address` reads the clock.
    pub open spec fn reads_clock(&self, address: u16) -> bool {
        &&& 0xA000 <= address <= 0xBFFF
        &&& self.ram_rtc_enabled
        &&& self.mapped_memory is RtcRegister
        &&& self.timer_present
    }

    /// What reading `address` at time `now` gives.
    pub open spec fn spec_read(&self, address: u16, now: u64) -> u8 {
        if address <= 0x3FFF {
            self.rom_data@[address as int]
        } else if address <= 0x7FFF {
            self.rom_data@[(self.active_rom_bank % self.rom_bank_nb) * 0x4000 + (address % 0x4000)]
        } else if !self.ram_rtc_enabled {
            0xFF
        } else {
            match self.mapped_memory {
                MappedMemory::RamBank(idx) => if (idx as int) < self.ram_bank_count {
                    self.ram@[idx * 0x2000 + (address % 0x2000)]
                } else {
                    0xFF
                },
                MappedMemory::RtcRegister(reg) => if self.timer_present {
                    spec_rtc_read(self.rtc, reg, now)
                } else {
                    0xFF
                },
            }
        }
    }

    /// What a read does to the mapper: only the clock catches up with the time.
    pub open spec fn spec_after_read(&self, new: &Self, address: u16, now: u64) -> bool {
        &&& new.rtc == (if self.reads_clock(address) { spec_update(self.rtc, now) } else { self.rtc })
        &&& self.same_but_clock(new)
        &&& new.ram@ == self.ram@
        &&& new.need_save == self.need_save
    }

    /// The registers other than the clock, the RAM and the save mark are the same.
    pub open spec fn same_but_clock(&self, new: &Self) -> bool {
        &&& new.rom_data@ == self.rom_data@
        &&& new.active_rom_bank == self.active_rom_bank
        &&& new.rom_bank_nb == self.rom_bank_nb
        &&& new.ram_rtc_enabled == self.ram_rtc_enabled
        &&& new.mapped_memory == self.mapped_memory
        &&& new.previous_latch == self.previous_latch
        &&& new.ram_bank_count == self.ram_bank_count
        &&& new.battery_present == self.battery_present
        &&& new.timer_present == self.timer_present
    }

    /// What writing `value` at `address` at time `now` does: `new` is the
    /// mapper after the write.
    pub open spec fn spec_write(&self, new: &Self, address: u16, value: u8, now: u64) -> bool {
        &&& new.rom_data@ == self.rom_data@
        &&& new.rom_bank_nb == self.rom_bank_nb
        &&& new.ram_bank_count == self.ram_bank_count
        &&& new.battery_present == self.battery_present
        &&& new.timer_present == self.timer_present
        &&& new.ram_rtc_enabled == (if address <= 0x1FFF { value % 16 == 0xA } else { self.ram_rtc_enabled })
        &&& new.active_rom_bank == (if 0x2000 <= address <= 0x3FFF {
                if value % 128 == 0 { 1 } else { (value % 128) as usize }
            } else { self.active_rom_bank })
        &&& new.mapped_memory == (if 0x4000 <= address <= 0x5FFF {
                if value <= 7 && (value as int) < self.ram_bank_count {
                    MappedMemory::RamBank(value)
                } else if 0x08 <= value <= 0x0C && self.timer_present {
                    MappedMemory::RtcRegister(value)
                } else {
                    self.mapped_memory
                }
            } else { self.mapped_memory })
        &&& new.previous_latch == (if 0x6000 <= address <= 0x7FFF { value } else { self.previous_latch })
        &&& new.rtc == (if 0x6000 <= address <= 0x7FFF && self.previous_latch == 0 && value == 1 {
                spec_rtc_latch(self.rtc, now)
            } else if 0xA000 <= address <= 0xBFFF && self.ram_rtc_enabled && self.mapped_memory is RtcRegister {
                spec_rtc_write(self.rtc, self.mapped_memory->RtcRegister_0, value, now)
            } else {
                self.rtc
            })
        &&& if 0xA000 <= address <= 0xBFFF && self.ram_rtc_enabled && self.mapped_memory is RamBank {
                &&& new.ram@ == self.ram@.update(self.mapped_memory->RamBank_0 * 0x2000 + (address % 0x2000), value)
                &&& new.need_save == (self.need_save || self.battery_present)
            } else {
                &&& new.ram@ == self.ram@
                &&& new.need_save == self.need_save
            }
    }

    pub fn new(header: &CartridgeHeader, rom_data: Vec<u8>) -> (r: MBC3)
        requires
            ram_size_supported(header.ram_size),
        ensures
            r.wf(),
            r.rom_data@ == rom_data@,
            r.active_rom_bank == 1,
            !r.ram_rtc_enabled,
            r.mapped_memory == MappedMemory::RamBank(0),
            r.previous_latch == 0xFF,
            r.ram_bank_count == ram_banks_of(header.ram_size),
            r.ram@ == Seq::new(r.ram_bank_count as nat * RAM_BANK_SIZE as nat, |i: int| 0u8),
            r.rtc.live == (rtc::RtcState { s: 0, m: 0, h: 0, dl: 0, dh: 0 }),
            !r.rtc.latched_valid,
            r.battery_present == (header.cart_type == 0x0F || header.cart_type == 0x10 || header.cart_type == 0x13),
            r.timer_present == (header.cart_type == 0x0F || header.cart_type == 0x10),
            !r.need_save,
    {
        let rom_bank_nb = rom_data.len() / 0x4000;
        let ram_bank_nb = ram_bank_count(header.ram_size) as usize;
        let ram = zeroed(ram_bank_nb * RAM_BANK_SIZE);
        let battery_present = header.cart_type == 0xF || header.cart_type == 0x10 || header.cart_type == 0x13;
        let timer_present = header.cart_type == 0x0F || header.cart_type == 0x10;
        MBC3 {
            rom_data,
            active_rom_bank: 1,
            rom_bank_nb,
            ram_rtc_enabled: false,
            mapped_memory: MappedMemory::RamBank(0),
            previous_latch: 0xFF,
            ram,
            ram_bank_count: ram_bank_nb,
            rtc: RTC::default(),
            battery_present,
            timer_present,
            need_save: false,
        }
    }

    /// Reads `address` at time `now`.
    pub fn read_at(&mut self, address: u16, now: u64) -> (r: u8)
        requires
            old(self).wf(),
            old(self).readable(address),
        ensures
            final(self).wf(),
            r == old(self).spec_read(address, now),
            old(self).spec_after_read(final(self), address, now),
    {
        if address <= 0x3FFF {
            self.rom_data[address as usize]
        } else if address <= 0x7FFF {
            let bank = self.active_rom_bank % self.rom_bank_nb;
            let a = address as usize;
            proof {
                super::mbc1::lemma_bank_index(bank, a, self.rom_bank_nb, self.rom_data.len() as nat);
            }
            let offset = bank << 14;
            self.rom_data[offset | (address as usize & 0x3FFF)]
        } else if self.ram_rtc_enabled {
            match self.mapped_memory {
                MappedMemory::RamBank(idx) => if (idx as usize) < self.ram_bank_count {
                    let a = address as usize;
                    proof { crate::bits::lemma_usize_bits(a); }
                    proof { super::mbc1::lemma_ram_index(idx as usize, a % 0x2000, self.ram_bank_count); }
                    self.ram[idx as usize * RAM_BANK_SIZE + (address as usize & 0x1FFF)]
                } else {
                    0xFF
                },
                MappedMemory::RtcRegister(reg) => if self.timer_present {
                    self.rtc.read_at(reg, now)
                } else {
                    0xFF
                },
            }
        } else {
            0xFF
        }
    }

    /// Reads `address`; the clock registers follow the machine's clock.
    pub fn read(&mut self, address: u16) -> (r: u8)
        requires
            old(self).wf(),
            old(self).readable(address),
        ensures
            final(self).wf(),
            exists|now: u64| r == #[trigger] old(self).spec_read(address, now) && old(self).spec_after_read(final(self), address, now),
    {
        let now = current_unix_time();
        self.read_at(address, now)
    }

    /// Writes `value` at `address` at time `now`.
    pub fn write_at(&mut self, address: u16, value: u8, now: u64)
        requires
            old(self).wf(),
            old(self).writable(address),
        ensures
            final(self).wf(),
            old(self).spec_write(final(self), address, value, now),
    {
        proof { crate::bits::lemma_u8_bits(value); }
        assert(value & 0x0F == value % 16 && value & 0x7F == value % 128);
        if address <= 0x1FFF {
            self.ram_rtc_enabled = (value & 0x0F) == 0x0A;
        } else if address <= 0x3FFF {
            let b = value & 0x7F;
            self.active_rom_bank = (if b < 1 { 1 } else { b }) as usize;
        } else if address <= 0x5FFF {
            if value <= 0x07 {
                if (value as usize) < self.ram_bank_count {
                    self.mapped_memory = MappedMemory::RamBank(value);
                }
            } else if value <= 0x0C {
                if self.timer_present {
                    self.mapped_memory = MappedMemory::RtcRegister(value);
                }
            }
        } else if address <= 0x7FFF {
            if self.previous_latch == 0 && value == 1 {
                self.rtc.latch_at(now);
            }
            self.previous_latch = value;
        } else {
            if self.ram_rtc_enabled {
                match self.mapped_memory {
                    MappedMemory::RtcRegister(reg) => self.rtc.write_at(reg, value, now),
                    MappedMemory::RamBank(idx) => {
                        let a = address as usize;
                        proof { crate::bits::lemma_usize_bits(a); }
                        proof { super::mbc1::lemma_ram_index(idx as usize, a % 0x2000, self.ram_bank_count); }
                        self.ram.set(idx as usize * RAM_BANK_SIZE + (address as usize & 0x1FFF), value);
                        if self.battery_present {
                            self.need_save = true;
                        }
                    },
                }
            }
        }
    }

    /// Writes `value` at `address`; the clock follows the machine's clock.
    pub fn write(&mut self, address: u16, value: u8)
        requires
            old(self).wf(),
            old(self).writable(address),
        ensures
            final(self).wf(),
            exists|now: u64| #[trigger] old(self).spec_write(final(self), address, value, now),
    {
        let now = current_unix_time();
        self.write_at(address, value, now);
    }

    /// Whether the battery-backed RAM changed since the last call; clears the mark.
    pub fn need_save(&mut self) -> (r: bool)
        ensures
            r == old(self).need_save,
            !final(self).need_save,
            *final(self) == (MBC3 { need_save: false, ..*old(self) }),
            old(self).same_but_clock(final(self)),
            final(self).rtc == old(self).rtc,
            final(self).ram == old(self).ram,
    {
        let need_save = self.need_save;
        if need_save {
            self.need_save = false;
        }
        need_save
    }

    /// The bytes of the save file: the RAM banks one after the other.
    pub fn save(&self) -> (r: Vec<u8>)
        ensures
            r@ == self.ram@,
    {
        self.ram.clone()
    }

    /// Loads the RAM banks from the bytes of a save file.
    pub fn load_save(&mut self, data: &Vec<u8>)
        requires
            old(self).wf(),
            data@.len() == old(self).ram@.len(),
        ensures
            final(self).wf(),
            final(self).ram@ == data@,
            old(self).same_but_clock(final(self)),
            final(self).rtc == old(self).rtc,
            final(self).need_save == old(self).need_save,
    {
        self.ram = data.clone();
    }
}

} // verus!
