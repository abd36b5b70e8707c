use vstd::prelude::*;
use crate::cart::Cartridge;
use crate::cpu::CPU;
use crate::debug::DebugInfo;
use crate::devices::Devices;
use crate::interconnect::Interconnect;
use crate::interconnect::io::IO;
use crate::interconnect::io::gamepad::Gamepad;
use crate::ppu::PPU;
use crate::utils::{ColorMode, InputState};

verus! {

/// The console: the CPU and the devices it drives.
pub struct Gameboy {
    pub cpu: CPU,
    pub devices: Devices,
}

impl Gameboy {
    /// A console without cartridge, in its state after the boot ROM.
    pub fn new(color_mode: ColorMode) -> (r: Gameboy)
        ensures
            r.devices.wf(),
            r.devices.bus.cart is None,
            r.devices.bus.io.lcd.color_mode == color_mode,
            r.devices.speed == 1,
            r.devices.frames == 0,
            r.devices.ticks == 0,
            r.cpu.registers.pc == 0x100,
            !r.cpu.halted,
            !r.cpu.int_master_enabled,
    {
        let bus = Interconnect::new(color_mode);
        let ppu = PPU::new();
        let devices = Devices::new(bus, ppu);
        Gameboy { cpu: CPU::new(), devices }
    }

    /// Inserts a cartridge.
    pub fn insert_cartridge(&mut self, cart: Cartridge)
        requires
            old(self).devices.wf(),
            cart.wf(),
        ensures
            final(self).devices.wf(),
            final(self).devices.bus.cart == Some(cart),
            old(self).devices.bus.same_but_cart(&final(self).devices.bus),
            final(self).cpu == old(self).cpu,
    {
        self.devices.bus.set_cart(cart);
    }

    /// Hands the state of the buttons to the joypad.
    pub fn apply_input(&mut self, input: InputState)
        ensures
            final(self).devices.bus.io.gamepad.gamepad_state == input,
            *final(self) == (Gameboy {
                devices: Devices {
                    bus: Interconnect {
                        io: IO {
                            gamepad: Gamepad { gamepad_state: input, ..old(self).devices.bus.io.gamepad },
                            ..old(self).devices.bus.io
                        },
                        ..old(self).devices.bus
                    },
                    ..old(self).devices
                },
                ..*old(self)
            }),
    {
        self.devices.bus.update_input(input);
    }

    /// Whether a cartridge is inserted.
    pub fn cartridge_loaded(&self) -> (r: bool)
        ensures
            r == self.devices.bus.cart is Some,
    {
        self.devices.bus.cart.is_some()
    }

    /// Whether the video RAM was written since the last call; clears the mark.
    pub fn take_vram_updated(&mut self) -> (r: bool)
        ensures
            r == old(self).devices.bus.vram_updated,
            !final(self).devices.bus.vram_updated,
            final(self).cpu == old(self).cpu,
    {
        let r = self.devices.bus.vram_updated;
        self.devices.bus.vram_updated = false;
        r
    }

    /// A view of the CPU and the video RAM for a debugger.
    pub fn debug(&self) -> (r: DebugInfo<'_>)
        ensures
            *r.cpu == self.cpu,
            r.vram@ == self.devices.bus.vram@,
    {
        DebugInfo::new(&self.cpu, &self.devices.bus.vram)
    }
}

} // verus!
