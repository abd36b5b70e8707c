use vstd::prelude::*;
use super::header::CartridgeHeader;

verus! {

/// Size of one bank of cartridge RAM.
pub const RAM_BANK_SIZE: usize = 0x2000;

/// Size of one bank of cartridge ROM.
pub const ROM_BANK_SIZE: usize = 0x4000;

/// Offset of the logo in a cartridge header.
pub const LOGO_OFFSET: usize = 0x104;

/// Length of the logo in a cartridge header.
pub const LOGO_LEN: usize = 48;

/// Offset of the header checksum.
pub const HEADER_CHECKSUM_OFFSET: usize = 0x014D;

/// Size of one game of a multi-game cartridge.
pub const MULTICART_SLOT_SIZE: usize = 0x40000;

/// The logo that every valid header holds.
pub open spec fn nintendo_logo() -> Seq<u8> {
    seq![
        0xCEu8, 0xED, 0x66, 0x66, 0xCC, 0x0D, 0x00, 0x0B,
        0x03, 0x73, 0x00, 0x83, 0x00, 0x0C, 0x00, 0x0D,
        0x00, 0x08, 0x11, 0x1F, 0x88, 0x89, 0x00, 0x0E,
        0xDC, 0xCC, 0x6E, 0xE6, 0xDD, 0xDD, 0xD9, 0x99,
        0xBB, 0xBB, 0x67, 0x63, 0x6E, 0x0E, 0xEC, 0xCC,
        0xDD, 0xDC, 0x99, 0x9F, 0xBB, 0xB9, 0x33, 0x3E,
    ]
}

/// The logo as bytes.
fn logo_bytes() -> (r: Vec<u8>)
    ensures
        r@ == nintendo_logo(),
{
    let r = vec![
        0xCEu8, 0xED, 0x66, 0x66, 0xCC, 0x0D, 0x00, 0x0B,
        0x03, 0x73, 0x00, 0x83, 0x00, 0x0C, 0x00, 0x0D,
        0x00, 0x08, 0x11, 0x1F, 0x88, 0x89, 0x00, 0x0E,
        0xDC, 0xCC, 0x6E, 0xE6, 0xDD, 0xDD, 0xD9, 0x99,
        0xBB, 0xBB, 0x67, 0x63, 0x6E, 0x0E, 0xEC, 0xCC,
        0xDD, 0xDC, 0x99, 0x9F, 0xBB, 0xB9, 0x33, 0x3E,
    ];
    assert(r@ =~= nintendo_logo());
    r
}

/// Number of RAM banks that a header's RAM size code announces,
/// for the codes that the mappers accept.
pub open spec fn ram_banks_of(ram_size: u8) -> u8 {
    if ram_size == 0x00 {
        0
    } else if ram_size == 0x02 {
        1
    } else if ram_size == 0x03 {
        4
    } else if ram_size == 0x04 {
        16
    } else {
        8
    }
}

/// Whether a RAM size code is one that the mappers accept.
pub open spec fn ram_size_supported(ram_size: u8) -> bool {
    ram_size == 0x00 || ram_size == 0x02 || ram_size == 0x03 || ram_size == 0x04 || ram_size == 0x05
}

/// Number of RAM banks for a RAM size code.
pub fn ram_bank_count(ram_size: u8) -> (r: u8)
    requires
        ram_size_supported(ram_size),
    ensures
        r == ram_banks_of(ram_size),
{
    match ram_size {
        0x00 => 0,
        0x02 => 1,
        0x03 => 4,
        0x04 => 16,
        _ => 8,
    }
}

/// A zero-filled RAM of `n` bytes.
pub fn zeroed(n: usize) -> (r: Vec<u8>)
    ensures
        r@ == Seq::new(n as nat, |i: int| 0u8),
{
    let mut r: Vec<u8> = Vec::with_capacity(n);
    let mut i: usize = 0;
    while i < n
        invariant
            i <= n,
            r@ == Seq::new(i as nat, |j: int| 0u8),
        decreases n - i,
    {
        r.push(0);
        i = i + 1;
        assert(r@ =~= Seq::new(i as nat, |j: int| 0u8));
    }
    r
}

/// The header checksum over the bytes `0x134..i` of the header at `base`.
pub open spec fn header_checksum(rom: Seq<u8>, base: int, i: int) -> u8
    decreases i - 0x134,
{
    if i <= 0x134 {
        0
    } else {
        let prev = header_checksum(rom, base, i - 1);
        vstd::wrapping::u8_specs::wrapping_sub(vstd::wrapping::u8_specs::wrapping_sub(prev, rom[base + i - 1]), 1)
    }
}

/// Whether the bytes at `base` hold a valid header: the logo and a matching
/// header checksum.
pub open spec fn spec_valid_gb_header(rom: Seq<u8>, base: int) -> bool {
    &&& base + HEADER_CHECKSUM_OFFSET < rom.len()
    &&& rom.subrange(base + LOGO_OFFSET, base + LOGO_OFFSET + LOGO_LEN) == nintendo_logo()
    &&& header_checksum(rom, base, 0x14D) == rom[base + HEADER_CHECKSUM_OFFSET]
}

/// Whether a ROM holds more than one game: at least two of its slots of
/// `MULTICART_SLOT_SIZE` bytes start with a valid header.
pub open spec fn spec_is_multicart(rom: Seq<u8>) -> bool {
    &&& rom.len() >= MULTICART_SLOT_SIZE * 2
    &&& exists|a: int, b: int|
        0 <= a < b < (rom.len() as int) / (MULTICART_SLOT_SIZE as int)
        && #[trigger] spec_valid_gb_header(rom, a * MULTICART_SLOT_SIZE)
        && #[trigger] spec_valid_gb_header(rom, b * MULTICART_SLOT_SIZE)
}

/// Whether the bytes at `base` hold a valid header.
pub fn valid_gb_header(rom_data: &Vec<u8>, base: usize) -> (r: bool)
    ensures
        r == spec_valid_gb_header(rom_data@, base as int),
{
    if base >= rom_data.len() || HEADER_CHECKSUM_OFFSET >= rom_data.len() - base {
        return false;
    }
    let logo = logo_bytes();
    let mut k: usize = 0;
    while k < LOGO_LEN
        invariant
            base + HEADER_CHECKSUM_OFFSET < rom_data@.len(),
            base + HEADER_CHECKSUM_OFFSET <= usize::MAX,
            logo@ == nintendo_logo(),
            k <= LOGO_LEN,
            forall|j: int| 0 <= j < k ==> rom_data@[base + LOGO_OFFSET + j] == nintendo_logo()[j],
        decreases LOGO_LEN - k,
    {
        if rom_data[base + LOGO_OFFSET + k] != logo[k] {
            assert(rom_data@.subrange(base + LOGO_OFFSET, base + LOGO_OFFSET + LOGO_LEN)[k as int]
                != nintendo_logo()[k as int]);
            return false;
        }
        k = k + 1;
    }
    assert(rom_data@.subrange(base + LOGO_OFFSET, base + LOGO_OFFSET + LOGO_LEN) =~= nintendo_logo());
    let mut checksum: u8 = 0;
    let mut i: usize = 0x0134;
    while i <= 0x014C
        invariant
            base + HEADER_CHECKSUM_OFFSET < rom_data@.len(),
            0x134 <= i <= 0x14D,
            base + HEADER_CHECKSUM_OFFSET <= usize::MAX,
            checksum == header_checksum(rom_data@, base as int, i as int),
        decreases 0x14D - i,
    {
        checksum = checksum.wrapping_sub(rom_data[base + i]).wrapping_sub(1);
        i = i + 1;
    }
    checksum == rom_data[base + HEADER_CHECKSUM_OFFSET]
}

/// Whether a ROM holds more than one game.
pub fn detect_multicart(rom_data: &Vec<u8>) -> (r: bool)
    ensures
        r == spec_is_multicart(rom_data@),
{
    if rom_data.len() < MULTICART_SLOT_SIZE * 2 {
        return false;
    }
    let mut headers_found: usize = 0;
    let ghost mut first: int = 0;
    let len = rom_data.len();
    let slots = len / MULTICART_SLOT_SIZE;
    let mut slot: usize = 0;
    while slot < slots
        invariant
            slots == (rom_data@.len() as int) / (MULTICART_SLOT_SIZE as int),
            len == rom_data@.len(),
            rom_data@.len() >= MULTICART_SLOT_SIZE * 2,
            slot <= slots,
            headers_found <= 1,
            headers_found == 0 ==> forall|a: int| 0 <= a < slot ==> !#[trigger] spec_valid_gb_header(rom_data@, a * MULTICART_SLOT_SIZE),
            headers_found == 1 ==> 0 <= first < slot && spec_valid_gb_header(rom_data@, first * MULTICART_SLOT_SIZE),
            headers_found == 1 ==> forall|a: int| 0 <= a < slot && a != first ==> !#[trigger] spec_valid_gb_header(rom_data@, a * MULTICART_SLOT_SIZE),
        decreases slots - slot,
    {
        assert(slot * MULTICART_SLOT_SIZE < rom_data@.len()) by (nonlinear_arith)
            requires slot < slots, slots == (rom_data@.len() as int) / (MULTICART_SLOT_SIZE as int);
        assert(slot * MULTICART_SLOT_SIZE <= usize::MAX) by (nonlinear_arith)
            requires slot < slots, slots == (len as int) / (MULTICART_SLOT_SIZE as int), len <= usize::MAX;
        let base = slot * MULTICART_SLOT_SIZE;
        if valid_gb_header(rom_data, base) {
            if headers_found >= 1 {
                assert(spec_valid_gb_header(rom_data@, slot * MULTICART_SLOT_SIZE));
                return true;
            }
            headers_found = headers_found + 1;
            proof {
                first = slot as int;
            }
        }
        slot = slot + 1;
    }
    false
}

/// The MBC1 mapper: up to 2 MiB of ROM and 32 KiB of RAM, with a variant
/// wiring for multi-game cartridges.
pub struct MBC1 {
    pub rom_data: Vec<u8>,
    pub rom_bank_nb: u8,
    pub is_multicart: bool,

    pub ram_enabled: bool,

    /// BANK 1 register
    pub bank1: usize,
    /// BANK 2 register
    pub bank2: usize,

    pub banking_mode: u8,

    /// The RAM banks, one after the other.
    pub ram: Vec<u8>,
    pub ram_bank_nb: u8,

    pub battery: bool,
    pub need_save: bool,
}

impl MBC1 {
    /// Whether reading `address` is defined, computed.
    pub fn can_read(&self, address: u16) -> (r: bool)
        ensures
            r == self.readable(address),
    {
        (address > 0x7FFF || self.rom_bank_nb > 0)
            && (!(0xA000 <= address && address <= 0xBFFF && self.ram_enabled) || self.ram_bank_nb > 0)
    }

    /// The invariant of the mapper's registers.
    pub open spec fn wf(&self) -> bool {
        &&& (self.rom_bank_nb as int) * (ROM_BANK_SIZE as int) <= self.rom_data@.len()
        &&& 1 <= self.bank1 <= 0x1F
        &&& self.bank2 <= 3
        &&& self.banking_mode <= 1
        &&& self.ram@.len() == (self.ram_bank_nb as int) * (RAM_BANK_SIZE as int)
        &&& self.ram_bank_nb <= 16
    }

    /// Whether reading `address` is defined (elsewhere it is not).
    pub open spec fn readable(&self, address: u16) -> bool {
        &&& address <= 0x7FFF ==> self.rom_bank_nb > 0
        &&& (0xA000 <= address <= 0xBFFF && self.ram_enabled) ==> self.ram_bank_nb > 0
    }

    /// The ROM bank seen at `0x0000..0x4000`.
    pub open spec fn low_bank(&self) -> int {
        let bank: int = if self.banking_mode == 0 {
            0
        } else if self.is_multicart {
            (self.bank2 * 16) as int
        } else {
            (self.bank2 * 32) as int
        };
        bank % (self.rom_bank_nb as int)
    }

    /// The ROM bank seen at `0x4000..0x8000`.
    pub open spec fn high_bank(&self) -> int {
        let bank: int = if self.is_multicart {
            (self.bank2 * 16 + self.bank1 % 16) as int
        } else {
            let b = (self.bank2 * 32 + self.bank1) as int;
            if b < 1 { 1 } else { b }
        };
        bank % (self.rom_bank_nb as int)
    }

    /// The RAM bank seen at `0xA000..0xC000`.
    pub open spec fn ram_bank(&self) -> int {
        if self.banking_mode == 0 {
            0
        } else if (self.bank2 as int) < self.ram_bank_nb - 1 {
            self.bank2 as int
        } else {
            self.ram_bank_nb - 1
        }
    }

    /// What reading `address` gives.
    pub open spec fn spec_read(&self, address: u16) -> u8 {
        if address <= 0x3FFF {
            self.rom_data@[self.low_bank() * 0x4000 + (address % 0x4000)]
        } else if address <= 0x7FFF {
            self.rom_data@[self.high_bank() * 0x4000 + (address % 0x4000)]
        } else if 0xA000 <= address <= 0xBFFF {
            if !self.ram_enabled {
                0xFF
            } else {
                self.ram@[self.ram_bank() * 0x2000 + (address % 0x2000)]
            }
        } else {
            0xFF
        }
    }

    /// What writing `value` at `address` does: `new` is the mapper after the write.
    pub open spec fn spec_write(&self, new: &Self, address: u16, value: u8) -> bool {
        &&& new.rom_data@ == self.rom_data@
        &&& new.rom_bank_nb == self.rom_bank_nb
        &&& new.is_multicart == self.is_multicart
        &&& new.ram_bank_nb == self.ram_bank_nb
        &&& new.battery == self.battery
        &&& new.ram_enabled == (if address < 0x2000 { value % 16 == 0xA } else { self.ram_enabled })
        &&& new.bank1 == (if 0x2000 <= address < 0x4000 {
                if value % 32 == 0 { 1 } else { (value % 32) as usize }
            } else { self.bank1 })
        &&& new.bank2 == (if 0x4000 <= address < 0x6000 { (value % 4) as usize } else { self.bank2 })
        &&& new.banking_mode == (if 0x6000 <= address < 0x8000 { value % 2 } else { self.banking_mode })
        &&& if 0xA000 <= address < 0xC000 && self.ram_enabled && self.ram_bank_nb > 0 {
                &&& new.ram@ == self.ram@.update(self.ram_bank() * 0x2000 + (address % 0x2000), value)
                &&& new.need_save == (self.need_save || self.battery)
            } else {
                &&& new.ram@ == self.ram@
                &&& new.need_save == self.need_save
            }
    }

    pub fn new(header: &CartridgeHeader, rom_data: Vec<u8>) -> (r: MBC1)
        requires
            ram_size_supported(header.ram_size),
        ensures
            r.wf(),
            r.rom_data@ == rom_data@,
            r.rom_bank_nb == ((rom_data@.len() / 0x4000) % 256) as u8,
            r.is_multicart == spec_is_multicart(rom_data@),
            !r.ram_enabled,
            r.bank1 == 1,
            r.bank2 == 0,
            r.banking_mode == 0,
            r.ram_bank_nb == ram_banks_of(header.ram_size),
            r.ram@ == Seq::new((r.ram_bank_nb as nat) * (RAM_BANK_SIZE as nat), |i: int| 0u8),
            r.battery == (header.cart_type == 3),
            !r.need_save,
    {
        let battery = header.cart_type == 3;
        let rom_bank_nb = ((rom_data.len() / 0x4000) % 256) as u8;
        let is_multicart = detect_multicart(&rom_data);
        let ram_bank_nb: u8 = ram_bank_count(header.ram_size);
        let ram = zeroed(ram_bank_nb as usize * RAM_BANK_SIZE);
        proof {
            let n = rom_data@.len() / 0x4000;
            assert((n % 256) * 0x4000 <= rom_data@.len()) by (nonlinear_arith)
                requires n == rom_data@.len() / 0x4000, rom_data@.len() >= 0;
        }
        MBC1 {
            rom_data,
            rom_bank_nb,
            is_multicart,
            ram_enabled: false,
            bank1: 1,
            bank2: 0,
            banking_mode: 0,
            ram,
            ram_bank_nb,
            battery,
            need_save: false,
        }
    }

    pub fn read(&self, address: u16) -> (r: u8)
        requires
            self.wf(),
            self.readable(address),
        ensures
            r == self.spec_read(address),
    {
        if address <= 0x3FFF {
            let mut bank: usize = if self.banking_mode == 0 {
                0
            } else if self.is_multicart {
                self.bank2 << 4
            } else {
                self.bank2 << 5
            };
            let b2 = self.bank2;
            assert(b2 << 4 == b2 * 16 && b2 << 5 == b2 * 32) by (bit_vector)
                requires b2 <= 3;
            bank = bank % (self.rom_bank_nb as usize);
            let idx = bank << 14 | (address as usize & 0x3FFF);
            proof { lemma_bank_index(bank, address as usize, self.rom_bank_nb as usize, self.rom_data.len() as nat); }
            self.rom_data[idx]
        } else if address <= 0x7FFF {
            let mut bank: usize = if self.is_multicart {
                (self.bank2 << 4) | (self.bank1 & 0xF)
            } else {
                (self.bank2 << 5) | self.bank1
            };
            let b1 = self.bank1;
            let b2 = self.bank2;
            assert(((b2 << 4) | (b1 & 0xF)) == b2 * 16 + b1 % 16
                && ((b2 << 5) | b1) == b2 * 32 + b1) by (bit_vector)
                requires b2 <= 3, b1 <= 0x1F;
            if !self.is_multicart {
                bank = if bank < 1 { 1 } else { bank };
            }
            bank = bank % (self.rom_bank_nb as usize);
            let idx = bank << 14 | (address as usize & 0x3FFF);
            proof { lemma_bank_index(bank, address as usize, self.rom_bank_nb as usize, self.rom_data.len() as nat); }
            self.rom_data[idx]
        } else if 0xA000 <= address && address <= 0xBFFF {
            if !self.ram_enabled {
                return 0xFF;
            }
            let ram_bank: usize = if self.banking_mode == 0 {
                0
            } else if self.bank2 < self.ram_bank_nb as usize - 1 {
                self.bank2
            } else {
                self.ram_bank_nb as usize - 1
            };
            let off = address as usize % 0x2000;
            proof { lemma_ram_index(ram_bank, off, self.ram_bank_nb as usize); }
            self.ram[ram_bank * RAM_BANK_SIZE + off]
        } else {
            0xFF
        }
    }

    pub fn write(&mut self, address: u16, value: u8)
        requires
            old(self).wf(),
        ensures
            final(self).wf(),
            old(self).spec_write(final(self), address, value),
    {
        if address < 0x2000 {
            self.ram_enabled = (value & 0xF) == 0xA;
            proof { crate::bits::lemma_u8_bits(value); }
            assert(value & 0xF == value % 16);
        } else if address < 0x4000 {
            let b = value as usize & 0x1F;
            proof { crate::bits::lemma_usize_bits(value as usize); }
            self.bank1 = if b < 1 { 1 } else { b };
        } else if address < 0x6000 {
            self.bank2 = value as usize & 0b11;
            proof { crate::bits::lemma_usize_bits(value as usize); }
        } else if address < 0x8000 {
            self.banking_mode = value & 1;
            proof { crate::bits::lemma_u8_bits(value); }
            assert(value & 1 == value % 2);
        } else if 0xA000 <= address && address < 0xC000 && self.ram_enabled && self.ram_bank_nb > 0 {
            let ram_bank: usize = if self.banking_mode == 0 {
                0
            } else if self.bank2 < self.ram_bank_nb as usize - 1 {
                self.bank2
            } else {
                self.ram_bank_nb as usize - 1
            };
            let off = address as usize % 0x2000;
            proof { lemma_ram_index(ram_bank, off, self.ram_bank_nb as usize); }
            self.ram.set(ram_bank * RAM_BANK_SIZE + off, value);
            if self.battery {
                self.need_save = true;
            }
        }
    }

    /// Whether the battery-backed RAM changed since the last call; clears the mark.
    pub fn need_save(&mut self) -> (r: bool)
        ensures
            r == old(self).need_save,
            !final(self).need_save,
            *final(self) == (MBC1 { need_save: false, ..*old(self) }),
            final(self).rom_data == old(self).rom_data,
            final(self).ram == old(self).ram,
            final(self).rom_bank_nb == old(self).rom_bank_nb,
            final(self).is_multicart == old(self).is_multicart,
            final(self).ram_enabled == old(self).ram_enabled,
            final(self).bank1 == old(self).bank1,
            final(self).bank2 == old(self).bank2,
            final(self).banking_mode == old(self).banking_mode,
            final(self).ram_bank_nb == old(self).ram_bank_nb,
            final(self).battery == old(self).battery,
    {
        let need_save = self.need_save;
        if need_save {
            self.need_save = false;
        }
        need_save
    }

    /// The bytes of the save file: the RAM banks one after the other.
    pub fn save(&self) -> (r: Vec<u8>)
        ensures
            r@ == self.ram@,
    {
        self.ram.clone()
    }

    /// Number of bytes that a save file must hold.
    pub fn save_len(&self) -> (r: usize)
        requires
            self.wf(),
        ensures
            r == self.ram@.len(),
    {
        self.ram_bank_nb as usize * RAM_BANK_SIZE
    }

    /// Loads the RAM banks from the bytes of a save file.
    pub fn load_save(&mut self, data: &Vec<u8>)
        requires
            old(self).wf(),
            data@.len() == old(self).ram@.len(),
        ensures
            final(self).wf(),
            final(self).ram@ == data@,
            final(self).rom_data == old(self).rom_data,
            final(self).rom_bank_nb == old(self).rom_bank_nb,
            final(self).is_multicart == old(self).is_multicart,
            final(self).ram_enabled == old(self).ram_enabled,
            final(self).bank1 == old(self).bank1,
            final(self).bank2 == old(self).bank2,
            final(self).banking_mode == old(self).banking_mode,
            final(self).ram_bank_nb == old(self).ram_bank_nb,
            final(self).battery == old(self).battery,
            final(self).need_save == old(self).need_save,
    {
        self.ram = data.clone();
    }
}

/// A bank number and an offset make an index into the ROM.
pub proof fn lemma_bank_index(bank: usize, address: usize, nb: usize, len: nat)
    requires
        bank < nb,
        nb * 0x4000 <= len,
        len <= usize::MAX,
    ensures
        (bank << 14 | (address & 0x3FFF)) == bank * 0x4000 + (address % 0x4000),
        bank * 0x4000 + (address % 0x4000) < len,
{
    assert(bank * 0x4000 + (address % 0x4000) < nb * 0x4000) by (nonlinear_arith)
        requires bank < nb, address % 0x4000 < 0x4000;
    let l = len as usize;
    assert((bank << 14 | (address & 0x3FFF)) == bank * 0x4000 + (address % 0x4000)) by (bit_vector)
        requires bank * 0x4000 + 0x4000 <= l;
}

/// The RAM size codes of the header: 0x00 no RAM, 0x02 8 KiB, 0x03 32 KiB,
/// 0x04 128 KiB, 0x05 64 KiB, in banks of 8 KiB.
pub proof fn lemma_ram_sizes()
    ensures
        ram_banks_of(0x00) as int * 0x2000 == 0,
        ram_banks_of(0x02) as int * 0x2000 == 8 * 1024,
        ram_banks_of(0x03) as int * 0x2000 == 32 * 1024,
        ram_banks_of(0x04) as int * 0x2000 == 128 * 1024,
        ram_banks_of(0x05) as int * 0x2000 == 64 * 1024,
{
}

/// ROM banking: after BANK1 is written with `v` (its five low bits, 0
/// meaning 1), `0x4000..0x8000` shows ROM bank `BANK2 * 32 + BANK1` (modulo
/// the bank count) of a cartridge that is not a multicart, and in banking
/// mode 0 `0x0000..0x4000` shows bank 0.
pub proof fn lemma_rom_banks(m: MBC1, m1: MBC1, v: u8, a: u16)
    requires
        m.wf(),
        !m.is_multicart,
        m.rom_bank_nb > 0,
        m.spec_write(&m1, 0x2000, v),
    ensures
        0x4000 <= a <= 0x7FFF ==> m1.spec_read(a) == m.rom_data@[
            ((m.bank2 as int * 32 + (if v % 32 == 0 { 1 } else { (v % 32) as int })) % (m.rom_bank_nb as int)) * 0x4000 + (a - 0x4000)],
        a <= 0x3FFF && m.banking_mode == 0 ==> m1.spec_read(a) == m.rom_data@[a as int],
{
    if a <= 0x3FFF && m.banking_mode == 0 {
        assert(m1.low_bank() == 0);
        assert(a % 0x4000 == a);
    }
    if 0x4000 <= a <= 0x7FFF {
        assert(a % 0x4000 == a - 0x4000);
        let b1: int = if v % 32 == 0 { 1 } else { (v % 32) as int };
        assert(m1.bank1 as int == b1);
        assert(m1.bank2 == m.bank2);
        assert(m1.high_bank() == (m.bank2 as int * 32 + b1) % (m.rom_bank_nb as int));
    }
}

/// The RAM window `0xA000..0xC000`, when enabled: in banking mode 0 it shows
/// RAM bank 0; in mode 1, bank BANK2 (the last bank when BANK2 is past it).
/// A read gives the byte of that bank at the offset in the window.
pub proof fn lemma_ram_window(m: MBC1, a: u16)
    requires
        m.wf(),
        m.ram_enabled,
        m.ram_bank_nb > 0,
        0xA000 <= a <= 0xBFFF,
    ensures
        ({
            let bank: int = if m.banking_mode == 0 {
                0
            } else if (m.bank2 as int) < (m.ram_bank_nb as int) {
                m.bank2 as int
            } else {
                m.ram_bank_nb - 1
            };
            m.spec_read(a) == m.ram@[bank * 0x2000 + (a - 0xA000)]
        }),
{
}

/// RAM banks are distinct: in banking mode 1, a byte written through the RAM
/// window while bank `x` is selected is not what the window shows once
/// another bank `y` is selected; it shows bank `y`'s own byte, as it was.
pub proof fn lemma_ram_banks_distinct(m: MBC1, m1: MBC1, m2: MBC1, a: u16, v: u8, y: u8)
    requires
        m.wf(),
        m.ram_enabled,
        m.banking_mode == 1,
        (m.bank2 as int) < (m.ram_bank_nb as int),
        (y % 4) as int != m.bank2 as int,
        ((y % 4) as int) < (m.ram_bank_nb as int),
        0xA000 <= a <= 0xBFFF,
        m.spec_write(&m1, a, v),
        m1.spec_write(&m2, 0x4000, y),
    ensures
        m1.spec_read(a) == v,
        m2.spec_read(a) == m.ram@[(y % 4) as int * 0x2000 + (a - 0xA000)],
{
    lemma_ram_window(m, a);
    assert(m.bank2 * 0x2000 + (a - 0xA000) != (y % 4) as int * 0x2000 + (a - 0xA000)) by (nonlinear_arith)
        requires (y % 4) as int != m.bank2 as int, 0 <= a - 0xA000 < 0x2000;
    assert(m.ram_bank_nb >= 2);
    assert((y % 4) as int * 0x2000 + (a - 0xA000) < m.ram_bank_nb * 0x2000) by (nonlinear_arith)
        requires ((y % 4) as int) < (m.ram_bank_nb as int), 0 <= a - 0xA000 < 0x2000;
}

/// A RAM bank number and an offset make an index into the RAM.
pub proof fn lemma_ram_index(bank: usize, off: usize, nb: usize)
    requires
        bank < nb,
        nb <= 16,
        off < 0x2000,
    ensures
        bank * 0x2000 + off < nb * 0x2000,
{
    assert(bank * 0x2000 + off < nb * 0x2000) by (nonlinear_arith)
        requires bank < nb, off < 0x2000;
}

} // verus!
