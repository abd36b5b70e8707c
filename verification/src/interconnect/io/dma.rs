use vstd::prelude::*;

verus! {

/// The OAM DMA unit: copies 160 bytes from `value * 0x100` into the sprite
/// attribute memory, one byte per machine cycle, after a start delay.
#[derive(Debug, Clone, Copy, PartialEq, Eq)]
pub struct DMA {
    pub active: bool,
    pub byte: u8,
    pub value: u8,
    pub start_delay: u8,
    pub restarted: bool,
}

/// The DMA unit after one machine cycle, and the byte it copies (offset and source page).
pub open spec fn spec_dma_tick(d: DMA) -> (DMA, Option<(u8, u8)>) {
    if !d.active {
        (d, None)
    } else if d.start_delay > 0 {
        (DMA { start_delay: (d.start_delay - 1) as u8, ..d }, None)
    } else if d.restarted {
        (DMA { restarted: false, byte: 0, ..d }, None)
    } else if d.byte < 0xA0 {
        let byte = (d.byte + 1) as u8;
        (DMA { byte, active: byte != 0xA0, ..d }, Some((d.byte, d.value)))
    } else {
        (DMA { active: false, ..d }, None)
    }
}

/// Whether a transfer is under way (the sprite memory is then blocked).
pub open spec fn spec_transferring(d: DMA) -> bool {
    (d.active && d.start_delay == 0) || d.restarted
}

/// The DMA unit after a transfer from page `value` is requested.
pub open spec fn spec_dma_start(d: DMA, value: u8) -> DMA {
    let d2 = if spec_transferring(d) {
        DMA { restarted: true, start_delay: 1, ..d }
    } else {
        DMA { start_delay: 2, byte: 0, ..d }
    };
    DMA { active: true, value, ..d2 }
}

impl DMA {
    pub fn new() -> (r: DMA)
        ensures
            r == (DMA { active: false, byte: 0, value: 0, start_delay: 0, restarted: false }),
    {
        DMA { active: false, byte: 0, value: 0, start_delay: 0, restarted: false }
    }

    /// One machine cycle; returns the offset and the source page of the byte to copy.
    /// The byte that the next machine cycle copies (offset and source page), if any.
    pub fn next_copy(&self) -> (r: Option<(u8, u8)>)
        ensures
            r == spec_dma_tick(*self).1,
    {
        if self.active && self.start_delay == 0 && !self.restarted && self.byte < 0xA0 {
            Some((self.byte, self.value))
        } else {
            None
        }
    }

    pub fn tick(&mut self) -> (r: Option<(u8, u8)>)
        ensures
            (*final(self), r) == spec_dma_tick(*old(self)),
    {
        if !self.active {
            return None;
        }
        if self.start_delay > 0 {
            self.start_delay = self.start_delay - 1;
            return None;
        }
        if self.restarted {
            self.restarted = false;
            self.byte = 0;
            return None;
        }
        if self.byte < 0xA0 {
            let result = Some((self.byte, self.value));
            self.byte = self.byte + 1;
            if self.byte == 0xA0 {
                self.active = false;
            }
            return result;
        }
        self.active = false;
        None
    }

    /// Starts (or restarts) a transfer from page `value`.
    pub fn start(&mut self, value: u8)
        ensures
            *final(self) == spec_dma_start(*old(self), value),
    {
        if self.transferring() {
            self.restarted = true;
            self.start_delay = 1;
        } else {
            self.start_delay = 2;
            self.byte = 0;
        }
        self.active = true;
        self.value = value;
    }

    pub fn transferring(&self) -> (r: bool)
        ensures
            r == spec_transferring(*self),
    {
        (self.active && self.start_delay == 0) || self.restarted
    }
}

} // verus!
