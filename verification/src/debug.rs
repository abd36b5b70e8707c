use vstd::prelude::*;
use crate::cpu::CPU;
use crate::interconnect::VRAM_SIZE;

verus! {

/// Number of tiles in the video RAM.
pub const TILE_COUNT: usize = 512;

/// A view of the CPU and the video RAM for a debugger.
pub struct DebugInfo<'dbg> {
    pub cpu: &'dbg CPU,
    pub vram: &'dbg Vec<u8>,
}

impl<'dbg> DebugInfo<'dbg> {
    pub fn new(cpu: &'dbg CPU, vram: &'dbg Vec<u8>) -> (r: DebugInfo<'dbg>)
        ensures
            *r.cpu == *cpu,
            r.vram@ == vram@,
    {
        DebugInfo { cpu, vram }
    }

    /// The 512 tiles of the video RAM, 16 bytes each, in order.
    pub fn get_tiles(&self) -> (r: Vec<[u8; 16]>)
        requires
            self.vram@.len() == VRAM_SIZE,
        ensures
            r@.len() == TILE_COUNT,
            forall|t: int, j: int| 0 <= t < TILE_COUNT && 0 <= j < 16 ==> #[trigger] r@[t]@[j] == self.vram@[16 * t + j],
    {
        let mut tiles: Vec<[u8; 16]> = Vec::new();
        let mut t: usize = 0;
        while t < TILE_COUNT
            invariant
                t <= TILE_COUNT,
                self.vram@.len() == VRAM_SIZE,
                tiles@.len() == t,
                forall|u: int, j: int| 0 <= u < t && 0 <= j < 16 ==> #[trigger] tiles@[u]@[j] == self.vram@[16 * u + j],
            decreases TILE_COUNT - t,
        {
            let mut tile = [0u8; 16];
            let mut j: usize = 0;
            while j < 16
                invariant
                    j <= 16,
                    t < TILE_COUNT,
                    self.vram@.len() == VRAM_SIZE,
                    forall|k: int| 0 <= k < j ==> #[trigger] tile@[k] == self.vram@[16 * t + k],
                decreases 16 - j,
            {
                tile.set(j, self.vram[16 * t + j]);
                j = j + 1;
            }
            tiles.push(tile);
            t = t + 1;
        }
        tiles
    }

    /// The registers by name, in the order a, f, b, c, d, e, h, l, pc, sp.
    pub fn registers(&self) -> (r: Vec<(&'static str, u16)>)
        ensures
            r@.len() == 10,
            r@[0] == ("a", self.cpu.registers.a as u16),
            r@[1] == ("f", self.cpu.registers.f as u16),
            r@[2] == ("b", self.cpu.registers.b as u16),
            r@[3] == ("c", self.cpu.registers.c as u16),
            r@[4] == ("d", self.cpu.registers.d as u16),
            r@[5] == ("e", self.cpu.registers.e as u16),
            r@[6] == ("h", self.cpu.registers.h as u16),
            r@[7] == ("l", self.cpu.registers.l as u16),
            r@[8] == ("pc", self.cpu.registers.pc),
            r@[9] == ("sp", self.cpu.registers.sp),
    {
        let regs = self.cpu.registers;
        let mut reg: Vec<(&'static str, u16)> = Vec::new();
        reg.push(("a", regs.a as u16));
        reg.push(("f", regs.f as u16));
        reg.push(("b", regs.b as u16));
        reg.push(("c", regs.c as u16));
        reg.push(("d", regs.d as u16));
        reg.push(("e", regs.e as u16));
        reg.push(("h", regs.h as u16));
        reg.push(("l", regs.l as u16));
        reg.push(("pc", regs.pc));
        reg.push(("sp", regs.sp));
        reg
    }
}

} // verus!
