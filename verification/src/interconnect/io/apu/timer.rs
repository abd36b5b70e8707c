use vstd::prelude::*;

verus! {

/// A down-counter that fires and reloads its period when it reaches zero.
#[derive(Debug, Clone, Copy, PartialEq, Eq)]
pub struct Timer {
    pub period: u16,
    pub value: u16,
}

/// The counter after one tick, and whether it fired.
pub open spec fn spec_apu_timer_tick(t: Timer) -> (Timer, bool) {
    let v = vstd::wrapping::u16_specs::wrapping_sub(t.value, 1);
    if v == 0 {
        (Timer { value: t.period, ..t }, true)
    } else {
        (Timer { value: v, ..t }, false)
    }
}

impl Timer {
    pub fn new() -> (r: Timer)
        ensures
            r == (Timer { period: 0, value: 0 }),
    {
        Timer { period: 0, value: 0 }
    }

    /// One tick; true when the counter reached zero (it then restarts from its period).
    pub fn tick(&mut self) -> (r: bool)
        ensures
            (*final(self), r) == spec_apu_timer_tick(*old(self)),
    {
        self.value = self.value.wrapping_sub(1);
        if self.value == 0 {
            self.value = self.period;
            return true;
        }
        false
    }

    pub fn set_period(&mut self, period: u16)
        ensures
            *final(self) == (Timer { period, ..*old(self) }),
    {
        self.period = period;
    }
}

} // verus!
