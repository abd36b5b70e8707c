use vstd::prelude::*;
use crate::utils::{Button, InputState, spec_pressed};

verus! {

/// The joypad register (`0xFF00`): two selection lines and the held buttons.
#[derive(Debug, Clone, Copy, PartialEq, Eq)]
pub struct Gamepad {
    pub button_select: bool,
    pub direction_select: bool,
    pub gamepad_state: InputState,
}

/// Whether line `i` (0 to 3) of the joypad register reads low: a button of a
/// selected group on that line is held. Action buttons are A, B, SELECT,
/// START; direction buttons are RIGHT, LEFT, UP, DOWN.
pub open spec fn spec_line_low(g: Gamepad, i: int) -> bool {
    let st = g.gamepad_state@;
    let action = if i == 0 { Button::A } else if i == 1 { Button::B } else if i == 2 { Button::SELECT } else { Button::START };
    let dir = if i == 0 { Button::RIGHT } else if i == 1 { Button::LEFT } else if i == 2 { Button::UP } else { Button::DOWN };
    (!g.button_select && spec_pressed(st, action)) || (!g.direction_select && spec_pressed(st, dir))
}

/// What reading the joypad register gives: bits 7 and 6 set, 5 and 4 clear,
/// and each of bits 0 to 3 clear when its line reads low.
pub open spec fn spec_output(g: Gamepad) -> u8 {
    (0xC0
        + (if spec_line_low(g, 0) { 0int } else { 1 })
        + (if spec_line_low(g, 1) { 0int } else { 2 })
        + (if spec_line_low(g, 2) { 0int } else { 4 })
        + (if spec_line_low(g, 3) { 0int } else { 8 })) as u8
}

/// The joypad register bit by bit: bits 7 and 6 read 1, bits 5 and 4 read 0,
/// and bit `i` (0 to 3) reads 0 exactly when line `i` reads low, that is when a
/// held button on that line belongs to a selected group (A, B, SELECT, START
/// when bit 5 was written 0; RIGHT, LEFT, UP, DOWN when bit 4 was).
pub proof fn lemma_output_bits(g: Gamepad)
    ensures
        spec_output(g) & 0xF0 == 0xC0,
        (spec_output(g) & 1 == 0) <==> spec_line_low(g, 0),
        ((spec_output(g) >> 1) & 1 == 0) <==> spec_line_low(g, 1),
        ((spec_output(g) >> 2) & 1 == 0) <==> spec_line_low(g, 2),
        ((spec_output(g) >> 3) & 1 == 0) <==> spec_line_low(g, 3),
{
    let a: u8 = if spec_line_low(g, 0) { 0 } else { 1 };
    let b: u8 = if spec_line_low(g, 1) { 0 } else { 1 };
    let c: u8 = if spec_line_low(g, 2) { 0 } else { 1 };
    let d: u8 = if spec_line_low(g, 3) { 0 } else { 1 };
    let x = spec_output(g);
    assert(x == 0xC0 + a + 2 * b + 4 * c + 8 * d);
    lemma_nibble(x, a, b, c, d);
}

/// The bits of `0xC0 + a + 2b + 4c + 8d` for bits `a` to `d`.
proof fn lemma_nibble(x: u8, a: u8, b: u8, c: u8, d: u8)
    requires
        a <= 1,
        b <= 1,
        c <= 1,
        d <= 1,
        x == 0xC0 + a + 2 * b + 4 * c + 8 * d,
    ensures
        x & 0xF0 == 0xC0,
        x & 1 == a,
        (x >> 1) & 1 == b,
        (x >> 2) & 1 == c,
        (x >> 3) & 1 == d,
{
    assert(x & 0xF0 == 0xC0 && x & 1 == a && (x >> 1) & 1 == b && (x >> 2) & 1 == c && (x >> 3) & 1 == d) by (bit_vector)
        requires a <= 1, b <= 1, c <= 1, d <= 1, x == 0xC0 + a + 2 * b + 4 * c + 8 * d;
}

impl Gamepad {
    /// No selection line active, no button held.
    pub open spec fn new_spec() -> Gamepad {
        Gamepad { button_select: false, direction_select: false, gamepad_state: InputState { buttons: crate::utils::ButtonFlag { bits: 0 } } }
    }

    /// No selection line active, no button held.
    pub fn new() -> (r: Gamepad)
        ensures
            r == Gamepad::new_spec(),
    {
        Gamepad { button_select: false, direction_select: false, gamepad_state: InputState::new() }
    }

    pub fn button_sel(&self) -> (r: bool)
        ensures
            r == self.button_select,
    {
        self.button_select
    }

    pub fn dir_sel(&self) -> (r: bool)
        ensures
            r == self.direction_select,
    {
        self.direction_select
    }

    /// Writes the selection lines (bits 5 and 4 of `value`).
    pub fn set_sel(&mut self, value: u8)
        ensures
            final(self).button_select == ((value / 32) % 2 == 1),
            final(self).direction_select == ((value / 16) % 2 == 1),
            final(self).gamepad_state == old(self).gamepad_state,
    {
        proof { crate::bits::lemma_u8_bits(value); }
        assert(((value & 0x20) != 0) == ((value / 32) % 2 == 1));
        proof { crate::bits::lemma_u8_bits(value); }
        assert(((value & 0x10) != 0) == ((value / 16) % 2 == 1));
        self.button_select = (value & 0x20) != 0;
        self.direction_select = (value & 0x10) != 0;
    }

    /// Whether line `i` reads low.
    fn line_low(&self, action: Button, dir: Button) -> (r: bool)
        ensures
            r == ((!self.button_select && spec_pressed(self.gamepad_state@, action))
                || (!self.direction_select && spec_pressed(self.gamepad_state@, dir))),
    {
        (!self.button_sel() && self.gamepad_state.pressed(action))
            || (!self.dir_sel() && self.gamepad_state.pressed(dir))
    }

    /// Reads the joypad register.
    pub fn get_output(&self) -> (r: u8)
        ensures
            r == spec_output(*self),
    {
        let low0 = self.line_low(Button::A, Button::RIGHT);
        let low1 = self.line_low(Button::B, Button::LEFT);
        let low2 = self.line_low(Button::SELECT, Button::UP);
        let low3 = self.line_low(Button::START, Button::DOWN);
        let mut output: u8 = 0xC0;
        if !low0 {
            output = output + 1;
        }
        if !low1 {
            output = output + 2;
        }
        if !low2 {
            output = output + 4;
        }
        if !low3 {
            output = output + 8;
        }
        output
    }
}

} // verus!
