use vstd::prelude::*;

pub mod header;
pub mod mbc1;
pub mod mbc2;
pub mod mbc3;
pub mod rom;

use header::{CartridgeHeader, HeaderError, HEADER_END, CART_TYPE_OFFSET, RAM_SIZE_OFFSET, ROM_SIZE_OFFSET};
use mbc1::{MBC1, ram_size_supported};
use mbc2::MBC2;
use mbc3::MBC3;
use mbc3::rtc::{RTC, spec_rtc_data_valid, spec_rtc_save_data, spec_update, current_unix_time, opt_bytes, spec_rtc_load};
use rom::ROM;

verus! {

/// The mapper of a cartridge, with its state.
pub enum CartridgeInternals {
    Rom(ROM),
    Mbc1(MBC1),
    Mbc2(MBC2),
    Mbc3(MBC3),
}

/// Whether a cartridge type code names a mapper without cartridge RAM size
/// requirements (plain ROM or MBC2).
pub open spec fn is_rom_type(t: u8) -> bool {
    t == 0
}

/// Whether a cartridge type code names an MBC1 cartridge.
pub open spec fn is_mbc1_type(t: u8) -> bool {
    0x1 <= t < 0x4
}

/// Whether a cartridge type code names an MBC2 cartridge.
pub open spec fn is_mbc2_type(t: u8) -> bool {
    0x5 <= t < 0x7
}

/// Whether a cartridge type code names an MBC3 cartridge.
pub open spec fn is_mbc3_type(t: u8) -> bool {
    0x0F <= t <= 0x13
}

/// Whether a ROM image can be loaded: either
/// its header is cut short (an error is returned), or its mapper is one of
/// those implemented and, for MBC1 and MBC3, its RAM size code is known.
pub open spec fn spec_supported(rom: Seq<u8>) -> bool {
    rom.len() < HEADER_END || {
        let t = rom[CART_TYPE_OFFSET as int];
        let ram = rom[RAM_SIZE_OFFSET as int];
        ||| is_rom_type(t)
        ||| is_mbc2_type(t)
        ||| (is_mbc1_type(t) || is_mbc3_type(t)) && ram_size_supported(ram)
    }
}

/// A game cartridge: its header and its mapper.
pub struct Cartridge {
    pub rom_size: u32,
    pub header: CartridgeHeader,
    pub cart_internals: CartridgeInternals,
}

/// The save files of a cartridge: the RAM, and the clock of MBC3 cartridges
/// that have one.
pub struct SaveData {
    pub ram: Option<Vec<u8>>,
    pub rtc: Option<Vec<u8>>,
}

impl Cartridge {
    /// Whether reading `address` is defined, computed.
    pub fn can_read(&self, address: u16) -> (r: bool)
        ensures
            r == self.readable(address),
    {
        match &self.cart_internals {
            CartridgeInternals::Rom(m) => m.can_read(address),
            CartridgeInternals::Mbc1(m) => m.can_read(address),
            CartridgeInternals::Mbc2(m) => m.can_read(address),
            CartridgeInternals::Mbc3(m) => m.can_read(address),
        }
    }

    /// Whether writing at `address` is defined, computed.
    pub fn can_write(&self, address: u16) -> (r: bool)
        ensures
            r == self.writable(address),
    {
        match &self.cart_internals {
            CartridgeInternals::Rom(_) => true,
            CartridgeInternals::Mbc1(_) => true,
            CartridgeInternals::Mbc2(_) => MBC2::can_write(address),
            CartridgeInternals::Mbc3(m) => m.can_write(address),
        }
    }

    /// The invariant of the mapper.
    pub open spec fn wf(&self) -> bool {
        match self.cart_internals {
            CartridgeInternals::Rom(_) => true,
            CartridgeInternals::Mbc1(m) => m.wf(),
            CartridgeInternals::Mbc2(m) => m.wf(),
            CartridgeInternals::Mbc3(m) => m.wf(),
        }
    }

    /// Whether reading `address` is defined (elsewhere it is not).
    pub open spec fn readable(&self, address: u16) -> bool {
        match self.cart_internals {
            CartridgeInternals::Rom(m) => m.readable(address),
            CartridgeInternals::Mbc1(m) => m.readable(address),
            CartridgeInternals::Mbc2(m) => m.readable(address),
            CartridgeInternals::Mbc3(m) => m.readable(address),
        }
    }

    /// Whether writing at `address` is defined (elsewhere it is not).
    pub open spec fn writable(&self, address: u16) -> bool {
        match self.cart_internals {
            CartridgeInternals::Rom(_) => true,
            CartridgeInternals::Mbc1(_) => true,
            CartridgeInternals::Mbc2(_) => MBC2::writable(address),
            CartridgeInternals::Mbc3(m) => m.writable(address),
        }
    }

    /// What reading `address` at time `now` gives.
    pub open spec fn spec_read(&self, address: u16, now: u64) -> u8 {
        match self.cart_internals {
            CartridgeInternals::Rom(m) => m.rom_data@[address as int],
            CartridgeInternals::Mbc1(m) => m.spec_read(address),
            CartridgeInternals::Mbc2(m) => m.spec_read(address),
            CartridgeInternals::Mbc3(m) => m.spec_read(address, now),
        }
    }

    /// What a read at time `now` does to the cartridge: nothing, but for the
    /// clock of MBC3 cartridges, which catches up with the time.
    pub open spec fn spec_after_read(&self, new: &Self, address: u16, now: u64) -> bool {
        &&& new.rom_size == self.rom_size
        &&& new.header == self.header
        &&& match (self.cart_internals, new.cart_internals) {
            (CartridgeInternals::Mbc3(m), CartridgeInternals::Mbc3(n)) => m.spec_after_read(&n, address, now),
            (CartridgeInternals::Mbc3(_), _) => false,
            _ => new.cart_internals == self.cart_internals,
        }
    }

    /// What writing `value` at `address` at time `now` does.
    pub open spec fn spec_write(&self, new: &Self, address: u16, value: u8, now: u64) -> bool {
        &&& new.rom_size == self.rom_size
        &&& new.header == self.header
        &&& match (self.cart_internals, new.cart_internals) {
            (CartridgeInternals::Rom(m), CartridgeInternals::Rom(n)) => n == m,
            (CartridgeInternals::Mbc1(m), CartridgeInternals::Mbc1(n)) => m.spec_write(&n, address, value),
            (CartridgeInternals::Mbc2(m), CartridgeInternals::Mbc2(n)) => m.spec_write(&n, address, value),
            (CartridgeInternals::Mbc3(m), CartridgeInternals::Mbc3(n)) => m.spec_write(&n, address, value, now),
            _ => false,
        }
    }

    /// The mark that the battery-backed RAM changed.
    pub open spec fn spec_need_save(&self) -> bool {
        match self.cart_internals {
            CartridgeInternals::Rom(_) => false,
            CartridgeInternals::Mbc1(m) => m.need_save,
            CartridgeInternals::Mbc2(m) => m.need_save,
            CartridgeInternals::Mbc3(m) => m.need_save,
        }
    }

    /// The cartridge with the mark that the battery-backed RAM changed cleared.
    pub open spec fn spec_save_cleared(&self) -> Cartridge {
        Cartridge {
            cart_internals: match self.cart_internals {
                CartridgeInternals::Rom(r) => CartridgeInternals::Rom(r),
                CartridgeInternals::Mbc1(m) => CartridgeInternals::Mbc1(MBC1 { need_save: false, ..m }),
                CartridgeInternals::Mbc2(m) => CartridgeInternals::Mbc2(MBC2 { need_save: false, ..m }),
                CartridgeInternals::Mbc3(m) => CartridgeInternals::Mbc3(MBC3 { need_save: false, ..m }),
            },
            ..*self
        }
    }

    /// The contents of the cartridge RAM, where there is some.
    pub open spec fn spec_ram(&self) -> Option<Seq<u8>> {
        match self.cart_internals {
            CartridgeInternals::Rom(_) => None,
            CartridgeInternals::Mbc1(m) => Some(m.ram@),
            CartridgeInternals::Mbc2(m) => Some(m.internal_ram@),
            CartridgeInternals::Mbc3(m) => Some(m.ram@),
        }
    }

    /// The ROM image.
    pub open spec fn spec_rom(&self) -> Seq<u8> {
        match self.cart_internals {
            CartridgeInternals::Rom(m) => m.rom_data@,
            CartridgeInternals::Mbc1(m) => m.rom_data@,
            CartridgeInternals::Mbc2(m) => m.rom_data@,
            CartridgeInternals::Mbc3(m) => m.rom_data@,
        }
    }

    /// The clock of an MBC3 cartridge.
    pub open spec fn spec_clock(&self) -> RTC
        recommends
            self.cart_internals is Mbc3,
    {
        self.cart_internals->Mbc3_0.rtc
    }

    /// Whether the cartridge has a clock.
    pub open spec fn spec_has_clock(&self) -> bool {
        self.cart_internals matches CartridgeInternals::Mbc3(m) && m.timer_present
    }

    /// Whether a ROM image can be loaded (see `spec_supported`).
    pub fn is_supported(rom_data: &Vec<u8>) -> (r: bool)
        ensures
            r == spec_supported(rom_data@),
    {
        if rom_data.len() < HEADER_END {
            return true;
        }
        let t = rom_data[CART_TYPE_OFFSET];
        let ram = rom_data[RAM_SIZE_OFFSET];
        let ram_ok = ram == 0x00 || ram == 0x02 || ram == 0x03 || ram == 0x04 || ram == 0x05;
        t == 0 || (0x5 <= t && t < 0x7) || ((0x1 <= t && t < 0x4) || (0x0F <= t && t <= 0x13)) && ram_ok
    }

    /// The cartridge whose ROM image is `rom_data`.
    pub fn from_rom(rom_data: Vec<u8>) -> (r: Result<Cartridge, HeaderError>)
        requires
            spec_supported(rom_data@),
            rom_data@.len() * 8 <= usize::MAX,
        ensures
            rom_data@.len() < HEADER_END <==> r is Err,
            r matches Ok(c) ==> {
                &&& c.wf()
                &&& c.rom_size == ((rom_data@.len() * 8) as u32)
                &&& c.header == (CartridgeHeader {
                        cart_type: rom_data@[CART_TYPE_OFFSET as int],
                        rom_size: rom_data@[ROM_SIZE_OFFSET as int],
                        ram_size: rom_data@[RAM_SIZE_OFFSET as int],
                    })
                &&& c.spec_rom() == rom_data@
                &&& is_rom_type(c.header.cart_type) ==> c.cart_internals is Rom
                &&& is_mbc1_type(c.header.cart_type) ==> c.cart_internals is Mbc1
                &&& is_mbc2_type(c.header.cart_type) ==> c.cart_internals is Mbc2
                &&& is_mbc3_type(c.header.cart_type) ==> c.cart_internals is Mbc3
            },
    {
        let rom_size = (rom_data.len() * 8) as u32;
        let header = match CartridgeHeader::from_bytes(&rom_data) {
            Ok(h) => h,
            Err(e) => return Err(e),
        };
        let t = header.cart_type;
        let cart_internals = if t == 0 {
            CartridgeInternals::Rom(ROM::new(rom_data))
        } else if 0x1 <= t && t < 0x4 {
            CartridgeInternals::Mbc1(MBC1::new(&header, rom_data))
        } else if 0x5 <= t && t < 0x7 {
            CartridgeInternals::Mbc2(MBC2::new(&header, rom_data))
        } else {
            CartridgeInternals::Mbc3(MBC3::new(&header, rom_data))
        };
        Ok(Cartridge { rom_size, header, cart_internals })
    }

    /// Reads `address` at time `now` (the time matters to the clock of MBC3 cartridges only).
    pub fn read_at(&mut self, address: u16, now: u64) -> (r: u8)
        requires
            old(self).wf(),
            old(self).readable(address),
        ensures
            final(self).wf(),
            r == old(self).spec_read(address, now),
            old(self).spec_after_read(final(self), address, now),
    {
        match &mut self.cart_internals {
            CartridgeInternals::Rom(m) => m.read(address),
            CartridgeInternals::Mbc1(m) => m.read(address),
            CartridgeInternals::Mbc2(m) => m.read(address),
            CartridgeInternals::Mbc3(m) => m.read_at(address, now),
        }
    }

    /// Reads `address`; the clock of MBC3 cartridges follows the machine's clock.
    pub fn read(&mut self, address: u16) -> (r: u8)
        requires
            old(self).wf(),
            old(self).readable(address),
        ensures
            final(self).wf(),
            exists|now: u64| r == #[trigger] old(self).spec_read(address, now) && old(self).spec_after_read(final(self), address, now),
    {
        let now = current_unix_time();
        self.read_at(address, now)
    }

    /// Writes `value` at `address` at time `now`.
    pub fn write_at(&mut self, address: u16, value: u8, now: u64)
        requires
            old(self).wf(),
            old(self).writable(address),
        ensures
            final(self).wf(),
            old(self).spec_write(final(self), address, value, now),
    {
        match &mut self.cart_internals {
            CartridgeInternals::Rom(_) => {},
            CartridgeInternals::Mbc1(m) => m.write(address, value),
            CartridgeInternals::Mbc2(m) => m.write(address, value),
            CartridgeInternals::Mbc3(m) => m.write_at(address, value, now),
        }
    }

    /// Writes `value` at `address`; the clock of MBC3 cartridges follows the machine's clock.
    pub fn write(&mut self, address: u16, value: u8)
        requires
            old(self).wf(),
            old(self).writable(address),
        ensures
            final(self).wf(),
            exists|now: u64| #[trigger] old(self).spec_write(final(self), address, value, now),
    {
        let now = current_unix_time();
        self.write_at(address, value, now);
    }

    /// Whether the battery-backed RAM changed since the last call; clears the mark.
    pub fn need_save(&mut self) -> (r: bool)
        requires
            old(self).wf(),
        ensures
            final(self).wf(),
            r == old(self).spec_need_save(),
            !final(self).spec_need_save(),
            final(self).spec_ram() == old(self).spec_ram(),
            final(self).header == old(self).header,
            *final(self) == old(self).spec_save_cleared(),
    {
        match &mut self.cart_internals {
            CartridgeInternals::Rom(_) => false,
            CartridgeInternals::Mbc1(m) => m.need_save(),
            CartridgeInternals::Mbc2(m) => m.need_save(),
            CartridgeInternals::Mbc3(m) => m.need_save(),
        }
    }

    /// The save files, with the clock caught up with time `now`: the RAM (none
    /// for plain ROM cartridges) and, for MBC3 cartridges with a clock, the
    /// clock's registers and timestamp.
    pub fn save_at(&mut self, now: u64) -> (r: SaveData)
        requires
            old(self).wf(),
        ensures
            final(self).wf(),
            final(self).spec_ram() == old(self).spec_ram(),
            final(self).header == old(self).header,
            opt_vec(r.ram) == old(self).spec_ram(),
            r.rtc is Some <==> old(self).spec_has_clock(),
            old(self).spec_has_clock() ==> {
                &&& final(self).spec_has_clock()
                &&& final(self).spec_clock() == spec_update(old(self).spec_clock(), now)
                &&& r.rtc.unwrap()@ == spec_rtc_save_data(final(self).spec_clock())
            },
    {
        match &mut self.cart_internals {
            CartridgeInternals::Rom(_) => SaveData { ram: None, rtc: None },
            CartridgeInternals::Mbc1(m) => SaveData { ram: Some(m.save()), rtc: None },
            CartridgeInternals::Mbc2(m) => SaveData { ram: Some(m.save()), rtc: None },
            CartridgeInternals::Mbc3(m) => {
                let ram = m.save();
                let rtc = if m.timer_present { Some(m.rtc.save_at(now)) } else { None };
                SaveData { ram: Some(ram), rtc }
            },
        }
    }

    /// The save files, with the clock caught up with the machine's clock.
    pub fn save(&mut self) -> (r: SaveData)
        requires
            old(self).wf(),
        ensures
            final(self).wf(),
            final(self).spec_ram() == old(self).spec_ram(),
            final(self).header == old(self).header,
            opt_vec(r.ram) == old(self).spec_ram(),
            r.rtc is Some <==> old(self).spec_has_clock(),
            old(self).spec_has_clock() ==> exists|now: u64| {
                &&& final(self).spec_has_clock()
                &&& #[trigger] final(self).spec_clock() == spec_update(old(self).spec_clock(), now)
                &&& r.rtc.unwrap()@ == spec_rtc_save_data(final(self).spec_clock())
            },
    {
        let now = current_unix_time();
        self.save_at(now)
    }

    /// The length that a RAM save file must have, or `None` for plain ROM cartridges.
    pub fn save_len(&self) -> (r: Option<usize>)
        requires
            self.wf(),
        ensures
            r matches Some(n) ==> self.spec_ram() matches Some(ram) && ram.len() == n,
            r is None <==> self.spec_ram() is None,
    {
        match &self.cart_internals {
            CartridgeInternals::Rom(_) => None,
            CartridgeInternals::Mbc1(m) => Some(m.save_len()),
            CartridgeInternals::Mbc2(m) => Some(m.internal_ram.len()),
            CartridgeInternals::Mbc3(m) => Some(m.ram.len()),
        }
    }

    /// Loads the save files that exist, at time `now`: `ram` replaces the
    /// cartridge RAM, `rtc` the clock's registers and timestamp; the clock then
    /// catches up with the time.
    pub fn load_save_at(&mut self, ram: Option<&Vec<u8>>, rtc: Option<&Vec<u8>>, now: u64)
        requires
            old(self).wf(),
            ram matches Some(d) ==> old(self).spec_ram() matches Some(r) && d@.len() == r.len(),
            rtc matches Some(d) ==> spec_rtc_data_valid(d@),
        ensures
            final(self).wf(),
            final(self).header == old(self).header,
            final(self).spec_ram() == (match (ram, old(self).spec_ram()) {
                (Some(d), Some(_)) => Some(d@),
                _ => old(self).spec_ram(),
            }),
            old(self).spec_has_clock() ==> {
                &&& final(self).spec_has_clock()
                &&& final(self).spec_clock() == spec_rtc_load(old(self).spec_clock(), opt_bytes(rtc), now)
            },
    {
        match &mut self.cart_internals {
            CartridgeInternals::Rom(_) => {},
            CartridgeInternals::Mbc1(m) => {
                if let Some(d) = ram {
                    m.load_save(d);
                }
            },
            CartridgeInternals::Mbc2(m) => {
                if let Some(d) = ram {
                    m.load_save(d);
                }
            },
            CartridgeInternals::Mbc3(m) => {
                if let Some(d) = ram {
                    m.load_save(d);
                }
                if m.timer_present {
                    m.rtc.load_at(rtc, now);
                }
            },
        }
    }

    /// Loads the save files that exist; the clock then catches up with the machine's clock.
    pub fn load_save(&mut self, ram: Option<&Vec<u8>>, rtc: Option<&Vec<u8>>)
        requires
            old(self).wf(),
            ram matches Some(d) ==> old(self).spec_ram() matches Some(r) && d@.len() == r.len(),
            rtc matches Some(d) ==> spec_rtc_data_valid(d@),
        ensures
            final(self).wf(),
            final(self).header == old(self).header,
            final(self).spec_ram() == (match (ram, old(self).spec_ram()) {
                (Some(d), Some(_)) => Some(d@),
                _ => old(self).spec_ram(),
            }),
            old(self).spec_has_clock() ==> final(self).spec_has_clock()
                && exists|now: u64| #[trigger] final(self).spec_clock() == spec_rtc_load(old(self).spec_clock(), opt_bytes(rtc), now),
    {
        let now = current_unix_time();
        self.load_save_at(ram, rtc, now);
    }
}

/// The contents of an optional buffer.
pub open spec fn opt_vec(v: Option<Vec<u8>>) -> Option<Seq<u8>> {
    match v {
        Some(d) => Some(d@),
        None => None,
    }
}

/// The RAM saved from one cartridge and loaded into another of the same RAM
/// size is the RAM of the first (`save` gives `opt_vec(r.ram) == spec_ram()`,
/// `load_save` the RAM it is handed).
pub proof fn lemma_ram_save_load(source: Cartridge, target: Cartridge, loaded: Cartridge, saved: SaveData)
    requires
        opt_vec(saved.ram) == source.spec_ram(),
        source.spec_ram() matches Some(r) && target.spec_ram() matches Some(t) && r.len() == t.len(),
        loaded.spec_ram() == (match (saved.ram, target.spec_ram()) {
            (Some(d), Some(_)) => Some(d@),
            _ => target.spec_ram(),
        }),
    ensures
        loaded.spec_ram() == source.spec_ram(),
{
}

} // verus!
