use vstd::prelude::*;

pub mod io;
pub mod oam;
pub mod ram;

use crate::cart::Cartridge;
use crate::cart::mbc3::rtc::current_unix_time;
use crate::cpu::interrupts::{InterruptType, interrupt_bit};
use crate::utils::{ColorMode, InputState};
use io::IO;
use io::dma::{spec_dma_tick, spec_transferring};
use oam::OAMEntry;
use ram::RAM;

verus! {

/// Size of the video RAM.
pub const VRAM_SIZE: usize = 0x2000;
/// Number of entries of the sprite attribute memory.
pub const OAM_ENTRIES: usize = 40;

// 0x0000 - 0x3FFF : ROM Bank 0
// 0x4000 - 0x7FFF : ROM Bank 1 - Switchable
// 0x8000 - 0x97FF : CHR RAM
// 0x9800 - 0x9BFF : BG Map 1
// 0x9C00 - 0x9FFF : BG Map 2
// 0xA000 - 0xBFFF : Cartridge RAM
// 0xC000 - 0xCFFF : RAM Bank 0
// 0xD000 - 0xDFFF : RAM Bank 1-7 - switchable - Color only
// 0xE000 - 0xFDFF : Reserved - Echo RAM
// 0xFE00 - 0xFE9F : Object Attribute Memory
// 0xFEA0 - 0xFEFF : Reserved - Unusable
// 0xFF00 - 0xFF7F : I/O Registers
// 0xFF80 - 0xFFFE : Zero Page

/// Whether an address belongs to the cartridge (ROM or cartridge RAM).
pub open spec fn cart_address(address: u16) -> bool {
    address < 0x8000 || (0xA000 <= address < 0xC000)
}

/// An access that the bus does not define, with its address: a read or a
/// write where no cartridge answers, or where the cartridge itself has
/// nothing (the emulation cannot go on after one).
#[derive(Debug, Clone, Copy, PartialEq, Eq, Structural)]
pub enum BusFault {
    Read(u16),
    Write(u16),
}

/// The memory bus: the cartridge, the video RAM, the work and high RAM, the
/// sprite attribute memory, the I/O registers and the interrupt enable register.
pub struct Interconnect {
    pub cart: Option<Cartridge>,
    pub vram: Vec<u8>,
    pub vram_updated: bool,
    pub ram: RAM,
    pub oam_ram: Vec<OAMEntry>,
    pub io: IO,
    pub ie_register: u8,
}

impl Interconnect {
    pub open spec fn wf(&self) -> bool {
        &&& self.vram@.len() == VRAM_SIZE
        &&& self.ram.wf()
        &&& self.oam_ram@.len() == OAM_ENTRIES
        &&& self.io.wf()
        &&& self.cart matches Some(c) ==> c.wf()
    }

    /// Whether reading `address` is defined: a cartridge address needs a
    /// cartridge that defines a read there.
    pub open spec fn readable(&self, address: u16) -> bool {
        cart_address(address) ==> (self.cart matches Some(c) && c.readable(address))
    }

    /// Whether writing at `address` is defined.
    pub open spec fn writable(&self, address: u16) -> bool {
        cart_address(address) ==> (self.cart matches Some(c) && c.writable(address))
    }

    /// Byte `address - 0xFE00` of the sprite attribute memory.
    pub open spec fn spec_oam_byte(&self, address: u16) -> u8 {
        self.oam_ram@[((address - 0xFE00) / 4) as int].spec_byte((address % 4) as usize)
    }

    /// What reading `address` at time `now` gives.
    pub open spec fn spec_read(&self, address: u16, now: u64) -> u8 {
        if cart_address(address) {
            self.cart.unwrap().spec_read(address, now)
        } else if address < 0xA000 {
            self.vram@[address - 0x8000]
        } else if address < 0xE000 {
            self.ram.wram@[address - 0xC000]
        } else if address < 0xFE00 {
            0
        } else if address < 0xFEA0 {
            if spec_transferring(self.io.dma) { 0xFF } else { self.spec_oam_byte(address) }
        } else if address < 0xFF00 {
            0
        } else if address < 0xFF80 {
            self.io.spec_read(address)
        } else if address < 0xFFFF {
            self.ram.hram@[address - 0xFF80]
        } else {
            self.ie_register
        }
    }

    /// Everything but the cartridge is the same.
    pub open spec fn same_but_cart(&self, new: &Self) -> bool {
        &&& new.vram == self.vram
        &&& new.vram_updated == self.vram_updated
        &&& new.ram == self.ram
        &&& new.oam_ram == self.oam_ram
        &&& new.io == self.io
        &&& new.ie_register == self.ie_register
    }

    /// Whether reading `address` reads the clock of an MBC3 cartridge.
    pub open spec fn reads_clock(&self, address: u16) -> bool {
        self.cart matches Some(c) && c.cart_internals matches crate::cart::CartridgeInternals::Mbc3(m)
            && m.reads_clock(address)
    }

    /// Whether `address` is plain memory: cartridge ROM or RAM (of an
    /// inserted cartridge, not its clock), video RAM, work RAM, high RAM or IE. Only the CPU's writes change what
    /// such an address holds.
    pub open spec fn memory_address(&self, address: u16) -> bool {
        ||| cart_address(address) && self.cart is Some && !self.reads_clock(address)
        ||| 0x8000 <= address < 0xA000
        ||| 0xC000 <= address < 0xE000
        ||| 0xFF80 <= address
    }

    /// Everything but the I/O registers holds the same values.
    pub open spec fn same_but_io(&self, new: &Self) -> bool {
        &&& new.cart == self.cart
        &&& new.vram@ == self.vram@
        &&& new.vram_updated == self.vram_updated
        &&& new.ram.wram@ == self.ram.wram@
        &&& new.ram.hram@ == self.ram.hram@
        &&& new.oam_ram@ == self.oam_ram@
        &&& new.ie_register == self.ie_register
    }

    /// What a read at time `now` does to the bus: only the cartridge (its
    /// clock) can change.
    pub open spec fn spec_after_read(&self, new: &Self, address: u16, now: u64) -> bool {
        &&& self.same_but_cart(new)
        &&& if cart_address(address) {
                new.cart matches Some(c) && self.cart.unwrap().spec_after_read(&c, address, now)
            } else {
                new.cart == self.cart
            }
    }

    /// What writing `value` at `address` at time `now` does: `new` is the bus after.
    pub open spec fn spec_write(&self, new: &Self, address: u16, value: u8, now: u64) -> bool {
        if cart_address(address) {
            &&& self.same_but_cart(new)
            &&& new.cart matches Some(c) && self.cart.unwrap().spec_write(&c, address, value, now)
        } else {
            &&& new.cart == self.cart
            &&& new.vram@ == (if address < 0xA000 { self.vram@.update(address - 0x8000, value) } else { self.vram@ })
            &&& new.vram_updated == (if address < 0xA000 { true } else { self.vram_updated })
            &&& new.ram.wram@ == (if 0xC000 <= address < 0xE000 { self.ram.wram@.update(address - 0xC000, value) } else { self.ram.wram@ })
            &&& new.ram.hram@ == (if 0xFF80 <= address < 0xFFFF { self.ram.hram@.update(address - 0xFF80, value) } else { self.ram.hram@ })
            &&& new.oam_ram@ == (if 0xFE00 <= address < 0xFEA0 && !spec_transferring(self.io.dma) {
                    self.oam_ram@.update(((address - 0xFE00) / 4) as int, new.oam_ram@[((address - 0xFE00) / 4) as int])
                } else {
                    self.oam_ram@
                })
            &&& (0xFE00 <= address < 0xFEA0 && !spec_transferring(self.io.dma)) ==> {
                    let i = ((address - 0xFE00) / 4) as int;
                    &&& new.oam_ram@[i].spec_byte((address % 4) as usize) == value
                    &&& forall|b: usize| b < 4 && b != (address % 4) as usize ==> #[trigger] new.oam_ram@[i].spec_byte(b) == self.oam_ram@[i].spec_byte(b)
                }
            &&& if 0xFF00 <= address < 0xFF80 { self.io.spec_write(&new.io, address, value) } else { new.io == self.io }
            &&& new.ie_register == (if address == 0xFFFF { value } else { self.ie_register })
        }
    }

    /// A bus without cartridge, in its state after the boot ROM.
    pub fn new(color_mode: ColorMode) -> (r: Interconnect)
        ensures
            r.wf(),
            r.cart is None,
            r.vram@ == Seq::new(VRAM_SIZE as nat, |i: int| 0u8),
            !r.vram_updated,
            r.ie_register == 0,
            r.io.lcd.color_mode == color_mode,
            forall|i: int| 0 <= i < OAM_ENTRIES ==> r.oam_ram@[i] == (OAMEntry { y: 0, x: 0, tile: 0, flags: 0 }),
    {
        let mut oam_ram: Vec<OAMEntry> = Vec::new();
        let mut i: usize = 0;
        while i < OAM_ENTRIES
            invariant
                i <= OAM_ENTRIES,
                oam_ram@.len() == i,
                forall|j: int| 0 <= j < i ==> oam_ram@[j] == (OAMEntry { y: 0, x: 0, tile: 0, flags: 0 }),
            decreases OAM_ENTRIES - i,
        {
            oam_ram.push(OAMEntry::new());
            i = i + 1;
        }
        Interconnect {
            cart: None,
            vram: crate::cart::mbc1::zeroed(VRAM_SIZE),
            vram_updated: false,
            ram: RAM::new(),
            oam_ram,
            io: IO::new(color_mode),
            ie_register: 0,
        }
    }

    pub fn set_cart(&mut self, cart: Cartridge)
        requires
            old(self).wf(),
            cart.wf(),
        ensures
            final(self).wf(),
            final(self).cart == Some(cart),
            old(self).same_but_cart(final(self)),
    {
        self.cart = Some(cart);
    }

    /// Reads `address` at time `now` (the time matters to a cartridge clock only).
    pub fn read_at(&mut self, address: u16, now: u64) -> (r: u8)
        requires
            old(self).wf(),
            old(self).readable(address),
        ensures
            final(self).wf(),
            r == old(self).spec_read(address, now),
            old(self).spec_after_read(final(self), address, now),
    {
        if cart_address_exec(address) {
            match &mut self.cart {
                Some(c) => c.read_at(address, now),
                None => 0,
            }
        } else if address < 0xA000 {
            self.vram[(address - 0x8000) as usize]
        } else if address < 0xE000 {
            self.ram.wram_read(address)
        } else if address < 0xFE00 {
            0
        } else if address < 0xFEA0 {
            if self.io.dma_transferring() {
                0xFF
            } else {
                let sprite_index = ((address - 0xFE00) / 4) as usize;
                let byte = (address % 4) as usize;
                self.oam_ram[sprite_index].read(byte)
            }
        } else if address < 0xFF00 {
            0
        } else if address < 0xFF80 {
            self.io.read(address)
        } else if address < 0xFFFF {
            self.ram.hram_read(address)
        } else {
            self.ie_register
        }
    }

    /// Reads `address`; a cartridge clock follows the machine's clock.
    pub fn read(&mut self, address: u16) -> (r: u8)
        requires
            old(self).wf(),
            old(self).readable(address),
        ensures
            final(self).wf(),
            exists|now: u64| r == #[trigger] old(self).spec_read(address, now) && old(self).spec_after_read(final(self), address, now),
    {
        let now = current_unix_time();
        self.read_at(address, now)
    }

    /// Reads the 16-bit little-endian value at `address`: the low byte, then
    /// the high byte.
    pub fn read16(&mut self, address: u16) -> (r: u16)
        requires
            old(self).wf(),
            address < 0xFFFF,
            old(self).readable(address),
            old(self).readable((address + 1) as u16),
        ensures
            final(self).wf(),
            exists|mid: Interconnect, n1: u64, n2: u64| #[trigger] read16_trace(*old(self), mid, *final(self), address, n1, n2, r),
    {
        let ghost b0 = *self;
        let low_byte = self.read(address);
        let ghost n1 = choose|now: u64| low_byte == #[trigger] b0.spec_read(address, now) && b0.spec_after_read(self, address, now);
        proof {
            lemma_readable_after_read(b0, *self, address, (address + 1) as u16, n1);
        }
        let ghost b1 = *self;
        let high_byte = self.read(address + 1);
        let ghost n2 = choose|now: u64| high_byte == #[trigger] b1.spec_read((address + 1) as u16, now) && b1.spec_after_read(self, (address + 1) as u16, now);
        let low: u16 = low_byte as u16;
        let high: u16 = high_byte as u16;
        proof { crate::bits::lemma_join_bytes(high, low); }
        let r = high << 8 | low;
        assert(read16_trace(b0, b1, *self, address, n1, n2, r));
        r
    }

    /// Writes a 16-bit value, low byte first, at `address` and `address + 1`.
    pub fn write16(&mut self, address: u16, value: u16)
        requires
            old(self).wf(),
            address < 0xFFFF,
            old(self).writable(address),
            forall|mid: Interconnect, n: u64| mid.wf() && #[trigger] old(self).spec_write(&mid, address, value as u8, n)
                ==> mid.writable((address + 1) as u16),
        ensures
            final(self).wf(),
            exists|mid: Interconnect, n1: u64, n2: u64|
                #[trigger] old(self).spec_write(&mid, address, (value % 256) as u8, n1)
                && #[trigger] mid.spec_write(final(self), (address + 1) as u16, (value / 256) as u8, n2),
    {
        proof { crate::bits::lemma_u16_bits(value); }
        assert(value as u8 == (value % 256) as u8);
        assert((value >> 8) as u8 == (value / 256) as u8);
        self.write(address, value as u8);
        let ghost mid = *self;
        self.write(address + 1, (value >> 8) as u8);
    }

    /// Writes `value` at `address` at time `now`.
    pub fn write_at(&mut self, address: u16, value: u8, now: u64)
        requires
            old(self).wf(),
            old(self).writable(address),
        ensures
            final(self).wf(),
            old(self).spec_write(final(self), address, value, now),
    {
        if cart_address_exec(address) {
            match &mut self.cart {
                Some(c) => c.write_at(address, value, now),
                None => {},
            }
        } else if address < 0xA000 {
            self.vram.set((address - 0x8000) as usize, value);
            self.vram_updated = true;
        } else if address < 0xE000 {
            self.ram.wram_write(address, value);
        } else if address < 0xFE00 {
        } else if address < 0xFEA0 {
            if !self.io.dma_transferring() {
                let sprite_index = ((address - 0xFE00) / 4) as usize;
                let byte = (address % 4) as usize;
                let mut e = self.oam_ram[sprite_index];
                e.write(byte, value);
                self.oam_ram.set(sprite_index, e);
            }
        } else if address < 0xFF00 {
        } else if address < 0xFF80 {
            self.io.write(address, value);
        } else if address < 0xFFFF {
            self.ram.hram_write(address, value);
        } else {
            self.ie_register = value;
        }
    }

    /// Writes `value` at `address`; a cartridge clock follows the machine's clock.
    pub fn write(&mut self, address: u16, value: u8)
        requires
            old(self).wf(),
            old(self).writable(address),
        ensures
            final(self).wf(),
            exists|now: u64| #[trigger] old(self).spec_write(final(self), address, value, now),
    {
        let now = current_unix_time();
        self.write_at(address, value, now);
    }

    /// Whether reading `address` is defined, computed.
    pub fn can_read(&self, address: u16) -> (r: bool)
        ensures
            r == self.readable(address),
    {
        if address < 0x8000 || (0xA000 <= address && address < 0xC000) {
            match &self.cart {
                Some(c) => c.can_read(address),
                None => false,
            }
        } else {
            true
        }
    }

    /// Whether writing at `address` is defined, computed.
    pub fn can_write(&self, address: u16) -> (r: bool)
        ensures
            r == self.writable(address),
    {
        if address < 0x8000 || (0xA000 <= address && address < 0xC000) {
            match &self.cart {
                Some(c) => c.can_write(address),
                None => false,
            }
        } else {
            true
        }
    }

    /// The source address of the byte that the DMA unit copies in the next
    /// machine cycle, if it copies one.
    pub fn dma_source(&self) -> (r: Option<u16>)
        ensures
            r == (match spec_dma_tick(self.io.dma).1 {
                Some((byte, val)) => Some((val as int * 0x100 + byte as int) as u16),
                None => None::<u16>,
            }),
    {
        match self.io.dma.next_copy() {
            Some((byte, val)) => {
                assert(val as u16 * 0x100 + byte as u16 == (val as int * 0x100 + byte as int) as u16);
                Some(val as u16 * 0x100 + byte as u16)
            },
            None => None,
        }
    }

    pub fn get_ie_register(&self) -> (r: u8)
        ensures
            r == self.ie_register,
    {
        self.ie_register
    }

    /// Requests an interrupt (sets its bit in IF).
    pub fn request_interrupt(&mut self, interrupt: InterruptType)
        ensures
            final(self).io == (IO { if_register: old(self).io.if_register | interrupt_bit(interrupt), ..old(self).io }),
            old(self).same_io(final(self)),
    {
        self.io.request_interrupt(interrupt);
    }

    /// Everything but the I/O is the same.
    pub open spec fn same_io(&self, new: &Self) -> bool {
        &&& new.cart == self.cart
        &&& new.vram == self.vram
        &&& new.vram_updated == self.vram_updated
        &&& new.ram == self.ram
        &&& new.oam_ram == self.oam_ram
        &&& new.ie_register == self.ie_register
    }

    /// This function ticks all the devices that tick once per clock cycle:
    /// the timer and the audio unit.
    pub fn tick_t(&mut self)
        requires
            old(self).wf(),
        ensures
            final(self).wf(),
            final(self).io == old(self).io.spec_tick_timer().spec_tick_apu(),
            old(self).same_io(final(self)),
    {
        self.io.tick_timer();
        self.io.tick_apu();
    }

    /// Whether the DMA unit can read its next source byte: when it copies one
    /// this machine cycle, its source address is readable.
    pub open spec fn dma_source_readable(&self) -> bool {
        spec_dma_tick(self.io.dma).1 matches Some((byte, val))
            ==> self.readable((val as int * 0x100 + byte as int) as u16)
    }

    /// This function ticks all the devices that tick once per machine cycle:
    /// the DMA unit, which copies one byte into the sprite attribute memory.
    pub fn tick_m(&mut self)
        requires
            old(self).wf(),
            old(self).dma_source_readable(),
        ensures
            spec_tick_m(*old(self), *final(self)),
    {
        if let Some((byte, val)) = self.io.tick_dma() {
            let source_addr = val as u16 * 0x100 + byte as u16;
            let ghost mid = *self;
            assert(val as u16 * 0x100 + byte as u16 == (val as int * 0x100 + byte as int) as u16);
            let value = self.read(source_addr);
            let ghost now = choose|now: u64| value == #[trigger] mid.spec_read(source_addr, now) && mid.spec_after_read(self, source_addr, now);
            assert forall|a: u16| #[trigger] self.readable(a) == mid.readable(a) && self.writable(a) == mid.writable(a)
                && self.memory_address(a) == mid.memory_address(a)
                && (forall|n: u64| mid.memory_address(a) ==> #[trigger] self.spec_read(a, n) == mid.spec_read(a, n)) by {
                lemma_readable_after_read(mid, *self, source_addr, a, now);
            }
            let ghost after_read = *self;
            let sprite_index = byte as usize / 4;
            let byte_offset = byte as usize % 4;
            let mut e = self.oam_ram[sprite_index];
            e.write(byte_offset, value);
            self.oam_ram.set(sprite_index, e);
            assert(dma_copy_trace(*old(self), *self, byte, val, now));
            assert forall|a: u16, n: u64| old(self).memory_address(a) implies #[trigger] self.spec_read(a, n) == old(self).spec_read(a, n) by {
                assert(after_read.spec_read(a, n) == mid.spec_read(a, n));
            }
        }
    }

    /// Reads the video RAM (`0x8000..0xA000`) on behalf of the pixel unit.
    pub fn read_vram(&self, address: u16) -> (r: u8)
        requires
            self.wf(),
            0x8000 <= address < 0xA000,
        ensures
            r == self.vram@[address - 0x8000],
            forall|now: u64| r == #[trigger] self.spec_read(address, now),
    {
        self.vram[(address - 0x8000) as usize]
    }

    /// Reads an LCD register (`0xFF40..=0xFF4B`) on behalf of the pixel unit.
    pub fn ppu_read(&self, address: u16) -> (r: u8)
        requires
            self.wf(),
            0xFF40 <= address <= 0xFF4B,
        ensures
            r == self.io.lcd.spec_reg(address),
    {
        self.io.lcd.read(address)
    }

    /// Sets the LY register on behalf of the pixel unit.
    pub fn set_ly(&mut self, value: u8)
        ensures
            final(self).io == (IO { lcd: io::lcd::LCD { ly: value, ..old(self).io.lcd }, ..old(self).io }),
            old(self).same_io(final(self)),
    {
        self.io.lcd.ly = value;
    }

    /// Sets the STAT register on behalf of the pixel unit.
    pub fn set_status(&mut self, status: u8)
        ensures
            final(self).io == (IO { lcd: io::lcd::LCD { status, ..old(self).io.lcd }, ..old(self).io }),
            old(self).same_io(final(self)),
    {
        self.io.lcd.status = status;
    }

    pub fn lcd_bg_colors(&self) -> (r: &[u32; 4])
        ensures
            *r == self.io.lcd.bg_colors,
    {
        &self.io.lcd.bg_colors
    }

    pub fn lcd_sp1_colors(&self) -> (r: &[u32; 4])
        ensures
            *r == self.io.lcd.sp1_colors,
    {
        &self.io.lcd.sp1_colors
    }

    pub fn lcd_sp2_colors(&self) -> (r: &[u32; 4])
        ensures
            *r == self.io.lcd.sp2_colors,
    {
        &self.io.lcd.sp2_colors
    }

    /// Entry `index` (below 40) of the sprite attribute memory.
    pub fn oam_sprite(&self, index: u8) -> (r: OAMEntry)
        requires
            self.wf(),
            index < 40,
        ensures
            r == self.oam_ram@[index as int],
    {
        self.oam_ram[index as usize]
    }

    /// Sets the buttons held down.
    pub fn update_input(&mut self, input: InputState)
        ensures
            final(self).io.gamepad.gamepad_state == input,
            final(self).io == (IO { gamepad: final(self).io.gamepad, ..old(self).io }),
            final(self).io.gamepad.button_select == old(self).io.gamepad.button_select,
            final(self).io.gamepad.direction_select == old(self).io.gamepad.direction_select,
            old(self).same_io(final(self)),
    {
        self.io.gamepad.gamepad_state = input;
    }

    /// Whether the cartridge's battery-backed RAM changed since the last call.
    pub fn need_save(&mut self) -> (r: bool)
        requires
            old(self).wf(),
            old(self).cart is Some,
        ensures
            final(self).wf(),
            r == old(self).cart.unwrap().spec_need_save(),
            final(self).cart is Some,
            !final(self).cart.unwrap().spec_need_save(),
            final(self).cart.unwrap().spec_ram() == old(self).cart.unwrap().spec_ram(),
            final(self).cart == Some(old(self).cart.unwrap().spec_save_cleared()),
            old(self).same_but_cart(final(self)),
    {
        match &mut self.cart {
            Some(c) => c.need_save(),
            None => false,
        }
    }

    /// The cartridge's save files.
    pub fn save(&mut self) -> (r: crate::cart::SaveData)
        requires
            old(self).wf(),
            old(self).cart is Some,
        ensures
            final(self).wf(),
            final(self).cart is Some,
            crate::cart::opt_vec(r.ram) == old(self).cart.unwrap().spec_ram(),
            r.rtc is Some <==> old(self).cart.unwrap().spec_has_clock(),
            old(self).cart.unwrap().spec_has_clock() ==> exists|now: u64| {
                &&& #[trigger] final(self).cart.unwrap().spec_clock()
                    == crate::cart::mbc3::rtc::spec_update(old(self).cart.unwrap().spec_clock(), now)
                &&& r.rtc.unwrap()@ == crate::cart::mbc3::rtc::spec_rtc_save_data(final(self).cart.unwrap().spec_clock())
            },
            old(self).same_but_cart(final(self)),
    {
        match &mut self.cart {
            Some(c) => c.save(),
            None => crate::cart::SaveData { ram: None, rtc: None },
        }
    }

    /// Loads the cartridge's save files that exist.
    pub fn load(&mut self, ram: Option<&Vec<u8>>, rtc: Option<&Vec<u8>>)
        requires
            old(self).wf(),
            old(self).cart matches Some(c) && (ram matches Some(d) ==> c.spec_ram() matches Some(r) && d@.len() == r.len()),
            rtc matches Some(d) ==> crate::cart::mbc3::rtc::spec_rtc_data_valid(d@),
        ensures
            final(self).wf(),
            final(self).cart is Some,
            final(self).cart.unwrap().spec_ram() == (match (ram, old(self).cart.unwrap().spec_ram()) {
                (Some(d), Some(_)) => Some(d@),
                _ => old(self).cart.unwrap().spec_ram(),
            }),
            old(self).cart.unwrap().spec_has_clock() ==> final(self).cart.unwrap().spec_has_clock()
                && exists|now: u64| #[trigger] final(self).cart.unwrap().spec_clock()
                    == crate::cart::mbc3::rtc::spec_rtc_load(old(self).cart.unwrap().spec_clock(), crate::cart::mbc3::rtc::opt_bytes(rtc), now),
            old(self).same_but_cart(final(self)),
    {
        match &mut self.cart {
            Some(c) => c.load_save(ram, rtc),
            None => {},
        }
    }
}

/// A 16-bit read: the bus goes from `old` to `mid` reading the low byte at
/// time `n1`, then from `mid` to `new` reading the high byte at time `n2`,
/// and `r` is the high byte times 256 plus the low byte.
pub open spec fn read16_trace(old: Interconnect, mid: Interconnect, new: Interconnect, address: u16, n1: u64, n2: u64, r: u16) -> bool {
    &&& old.spec_after_read(&mid, address, n1)
    &&& mid.spec_after_read(&new, (address + 1) as u16, n2)
    &&& r as int == old.spec_read(address, n1) as int + 256 * mid.spec_read((address + 1) as u16, n2) as int
}

/// One byte copied by the DMA unit at time `now`: with the I/O already
/// ticked, the byte read from page `val`, offset `byte` lands at offset `byte`
/// of the sprite attribute memory; the rest of that memory is unchanged.
pub open spec fn dma_copy_trace(old: Interconnect, new: Interconnect, byte: u8, val: u8, now: u64) -> bool {
    let src = (val as int * 0x100 + byte as int) as u16;
    let mid = Interconnect { io: new.io, ..old };
    let i = (byte / 4) as int;
    &&& new.oam_ram@.len() == old.oam_ram@.len()
    &&& new.oam_ram@[i].spec_byte((byte % 4) as usize) == mid.spec_read(src, now)
    &&& forall|b: usize| b < 4 && b != (byte % 4) as usize ==> #[trigger] new.oam_ram@[i].spec_byte(b) == old.oam_ram@[i].spec_byte(b)
    &&& forall|j: int| 0 <= j < new.oam_ram@.len() && j != i ==> #[trigger] new.oam_ram@[j] == old.oam_ram@[j]
}

/// A read leaves every address as readable as it was.
pub proof fn lemma_readable_after_read(old: Interconnect, new: Interconnect, a: u16, b: u16, now: u64)
    requires
        old.wf(),
        old.readable(a),
        old.spec_after_read(&new, a, now),
    ensures
        new.readable(b) == old.readable(b),
        new.writable(b) == old.writable(b),
        new.memory_address(b) == old.memory_address(b),
        forall|n: u64| old.memory_address(b) ==> #[trigger] new.spec_read(b, n) == old.spec_read(b, n),
{
    if cart_address(a) {
        let c = old.cart.unwrap();
        let d = new.cart.unwrap();
        match (c.cart_internals, d.cart_internals) {
            (crate::cart::CartridgeInternals::Mbc3(m), crate::cart::CartridgeInternals::Mbc3(n)) => {
                assert(m.rom_data@.len() == n.rom_data@.len());
            },
            _ => {},
        }
    }
}

/// Whether an address belongs to the cartridge.
fn cart_address_exec(address: u16) -> (r: bool)
    ensures
        r == cart_address(address),
{
    address < 0x8000 || (0xA000 <= address && address < 0xC000)
}

/// A write sets IE exactly when it goes to `0xFFFF`.
pub proof fn lemma_write_ie(old: Interconnect, new: Interconnect, address: u16, value: u8, now: u64)
    requires
        old.spec_write(&new, address, value, now),
    ensures
        new.ie_register == (if address == 0xFFFF { value } else { old.ie_register }),
{
}

/// Whether `address` is RAM of the console: video RAM, work RAM, high RAM or IE.
pub open spec fn console_ram(address: u16) -> bool {
    ||| 0x8000 <= address < 0xA000
    ||| 0xC000 <= address < 0xE000
    ||| 0xFF80 <= address
}

/// A read of the console's RAM gives back what the last write there wrote,
/// and a write leaves the rest of that RAM as it was.
pub proof fn lemma_read_after_write(old: Interconnect, new: Interconnect, address: u16, value: u8, now: u64, t: u64)
    requires
        old.wf(),
        old.spec_write(&new, address, value, now),
        console_ram(address),
    ensures
        new.spec_read(address, t) == value,
        forall|a: u16| a != address && console_ram(a) ==> #[trigger] new.spec_read(a, t) == old.spec_read(a, t),
{
}

/// The reads that hold no stored byte: the echo area and the unusable area
/// read 0; the sprite attribute memory reads 0xFF while a DMA transfer is
/// copying into it, else the byte of its entry; 0xFFFF reads IE.
pub proof fn lemma_fixed_reads(bus: Interconnect, now: u64)
    ensures
        forall|a: u16| 0xE000 <= a <= 0xFDFF ==> #[trigger] bus.spec_read(a, now) == 0,
        forall|a: u16| 0xFEA0 <= a <= 0xFEFF ==> #[trigger] bus.spec_read(a, now) == 0,
        forall|a: u16| 0xFE00 <= a <= 0xFE9F ==> #[trigger] bus.spec_read(a, now)
            == (if spec_transferring(bus.io.dma) { 0xFFu8 } else { bus.oam_ram@[(a - 0xFE00) / 4].spec_byte(((a - 0xFE00) % 4) as usize) }),
        bus.spec_read(0xFFFF, now) == bus.ie_register,
{
    assert forall|a: u16| 0xFE00 <= a <= 0xFE9F implies #[trigger] bus.spec_read(a, now)
        == (if spec_transferring(bus.io.dma) { 0xFFu8 } else { bus.oam_ram@[(a - 0xFE00) / 4].spec_byte(((a - 0xFE00) % 4) as usize) }) by {
        assert((a - 0xFE00) % 4 == a % 4);
    }
}

/// What one machine cycle of the bus does: the DMA unit steps and may copy
/// one byte into the sprite attribute memory; nothing else changes but for
/// the clock of an MBC3 cartridge that the copy reads.
pub open spec fn spec_tick_m(old: Interconnect, new: Interconnect) -> bool {
    &&& new.wf()
    &&& new.io.dma == spec_dma_tick(old.io.dma).0
    &&& new.io == (IO { dma: new.io.dma, ..old.io })
    &&& new.ie_register == old.ie_register
    &&& new.vram == old.vram
    &&& new.ram == old.ram
    &&& forall|a: u16| #[trigger] new.readable(a) == old.readable(a)
    &&& forall|a: u16| #[trigger] new.writable(a) == old.writable(a)
    &&& forall|a: u16| #[trigger] new.memory_address(a) == old.memory_address(a)
    &&& forall|a: u16, n: u64| old.memory_address(a) ==> #[trigger] new.spec_read(a, n) == old.spec_read(a, n)
    &&& spec_dma_tick(old.io.dma).1 is None ==> new.oam_ram == old.oam_ram && new.cart == old.cart
    &&& spec_dma_tick(old.io.dma).1 matches Some((byte, val)) ==> {
            &&& byte < 0xA0
            &&& exists|now: u64| #[trigger] dma_copy_trace(old, new, byte, val, now)
        }
}

/// Whether state `k + 1` of a run of bus states follows state `k` by one
/// machine cycle.
pub open spec fn ticks_at(s: Seq<Interconnect>, k: int) -> bool {
    spec_tick_m(s[k], s[k + 1])
}

/// Byte `b` (0 to 159) of the sprite attribute memory.
pub open spec fn oam_byte(bus: Interconnect, b: int) -> u8 {
    bus.oam_ram@[b / 4].spec_byte((b % 4) as usize)
}

/// What plain memory holds does not depend on the time of the read.
pub proof fn lemma_memory_read_timeless(bus: Interconnect, a: u16, n1: u64, n2: u64)
    requires
        bus.wf(),
        bus.memory_address(a),
    ensures
        bus.spec_read(a, n1) == bus.spec_read(a, n2),
{
    if cart_address(a) {
        let c = bus.cart.unwrap();
        match c.cart_internals {
            crate::cart::CartridgeInternals::Mbc3(m) => {
                assert(!m.reads_clock(a));
                assert(m.spec_read(a, n1) == m.spec_read(a, n2));
            },
            _ => {},
        }
    }
}

/// The DMA unit after a transfer from `page` was started (and no transfer
/// was under way).
pub open spec fn dma_started(page: u8) -> crate::interconnect::io::dma::DMA {
    crate::interconnect::io::dma::DMA { active: true, byte: 0, value: page, start_delay: 2, restarted: false }
}

/// A DMA transfer copies the 160 bytes of its source page into the sprite
/// attribute memory, in the 162 machine cycles that follow its start (two
/// of start delay, then one byte per cycle), and then stops; this holds when
/// the source page is plain memory, which the transfer leaves unchanged.
pub proof fn lemma_dma_transfer(s: Seq<Interconnect>, page: u8)
    requires
        s.len() == 163,
        forall|k: int| 0 <= k < 162 ==> #[trigger] ticks_at(s, k),
        s[0].wf(),
        s[0].io.dma == dma_started(page),
        forall|b: int| 0 <= b < 0xA0 ==> #[trigger] s[0].memory_address((page as int * 0x100 + b) as u16),
    ensures
        forall|b: int| 0 <= b < 0xA0 ==> #[trigger] oam_byte(s[162], b) == s[0].spec_read((page as int * 0x100 + b) as u16, 0),
        !s[162].io.dma.active,
{
    lemma_dma_prefix(s, page, 162);
}

/// The first `k` cycles of a DMA transfer: the unit's state, and the bytes
/// copied so far.
proof fn lemma_dma_prefix(s: Seq<Interconnect>, page: u8, k: int)
    requires
        2 <= k <= 162,
        s.len() == 163,
        forall|j: int| 0 <= j < 162 ==> #[trigger] ticks_at(s, j),
        s[0].wf(),
        s[0].io.dma == dma_started(page),
        forall|b: int| 0 <= b < 0xA0 ==> #[trigger] s[0].memory_address((page as int * 0x100 + b) as u16),
    ensures
        s[k].io.dma == (crate::interconnect::io::dma::DMA {
            active: k - 2 < 0xA0,
            byte: (k - 2) as u8,
            value: page,
            start_delay: 0,
            restarted: false,
        }),
        forall|a: u16| #[trigger] s[k].memory_address(a) == s[0].memory_address(a),
        forall|a: u16, n: u64| s[0].memory_address(a) ==> #[trigger] s[k].spec_read(a, n) == s[0].spec_read(a, n),
        forall|b: int| 0 <= b < k - 2 ==> #[trigger] oam_byte(s[k], b) == s[0].spec_read((page as int * 0x100 + b) as u16, 0),
    decreases k,
{
    assert(ticks_at(s, 0));
    assert(ticks_at(s, 1));
    if k == 2 {
        assert forall|a: u16, n: u64| s[0].memory_address(a) implies #[trigger] s[2].spec_read(a, n) == s[0].spec_read(a, n) by {
            assert(s[1].spec_read(a, n) == s[0].spec_read(a, n));
        }
        assert forall|a: u16| #[trigger] s[2].memory_address(a) == s[0].memory_address(a) by {
            assert(s[1].memory_address(a) == s[0].memory_address(a));
        }
    } else {
        lemma_dma_prefix(s, page, k - 1);
        let prev = s[k - 1];
        let next = s[k];
        assert(ticks_at(s, k - 1));
        let c = (k - 3) as u8;
        assert(spec_dma_tick(prev.io.dma).1 == Some((c, page)));
        let src = (page as int * 0x100 + c as int) as u16;
        let now = choose|now: u64| #[trigger] dma_copy_trace(prev, next, c, page, now);
        assert(s[0].memory_address(src));
        assert(prev.memory_address(src));
        let mid = Interconnect { io: next.io, ..prev };
        assert(mid.spec_read(src, now) == prev.spec_read(src, now));
        lemma_memory_read_timeless(s[0], src, now, 0);
        assert forall|b: int| 0 <= b < k - 2 implies #[trigger] oam_byte(s[k], b) == s[0].spec_read((page as int * 0x100 + b) as u16, 0) by {
            if b < k - 3 {
                assert(oam_byte(prev, b) == s[0].spec_read((page as int * 0x100 + b) as u16, 0));
                if b / 4 == c as int / 4 {
                    assert((b % 4) as usize != (c % 4) as usize);
                }
            }
        }
        assert forall|a: u16, n: u64| s[0].memory_address(a) implies #[trigger] next.spec_read(a, n) == s[0].spec_read(a, n) by {
            assert(prev.spec_read(a, n) == s[0].spec_read(a, n));
        }
        assert forall|a: u16| #[trigger] next.memory_address(a) == s[0].memory_address(a) by {
            assert(prev.memory_address(a) == s[0].memory_address(a));
        }
    }
}

} // verus!
