use vstd::prelude::*;

verus! {

/// Marks, in a flag argument of `CPU::set_flags`, a flag that is left as it is.
pub const BIT_IGNORE: u8 = 2;

/// Number of clock ticks between two audio samples.
pub const TICKS_PER_SAMPLE: u64 = 95;

/// Clock frequency of the CPU, in ticks per second.
pub const CPU_FREQUENCY: u32 = 4194304;

/// Frequency of the produced audio, in samples per second.
pub const AUDIO_FREQUENCY: u32 = 44100;

/// Value of the bit `n` of `a`.
pub open spec fn bit_of(a: u8, n: u8) -> bool {
    (a >> n) & 1 == 1
}

/// What `bit_set` leaves in `a`: its bit `n` set to `on`, the others kept.
pub open spec fn spec_bit_set(a: u8, n: u8, on: bool) -> u8 {
    if on {
        a | (1u8 << n)
    } else {
        a & !(1u8 << n)
    }
}

/// This function sets the n-th bit of 'a'
/// to the value given in 'on'
pub fn bit_set(a: &mut u8, n: u8, on: bool)
    requires
        n < 8,
    ensures
        *final(a) == spec_bit_set(*old(a), n, on),
        bit_of(*final(a), n) == on,
        forall|i: u8| i < 8 && i != n ==> #[trigger] bit_of(*final(a), i) == bit_of(*old(a), i),
{
    let ghost a0 = *a;
    if on {
        *a |= 1 << n;
    } else {
        *a &= !(1 << n);
    }
    proof {
        lemma_bit_set(a0, n, on);
    }
}

/// Setting a bit changes that bit and no other.
pub proof fn lemma_bit_set(a: u8, n: u8, on: bool)
    requires
        n < 8,
    ensures
        bit_of(spec_bit_set(a, n, on), n) == on,
        forall|i: u8| i < 8 && i != n ==> #[trigger] bit_of(spec_bit_set(a, n, on), i) == bit_of(a, i),
{
    if on {
        assert(((a | (1u8 << n)) >> n) & 1 == 1) by (bit_vector)
            requires n < 8;
        assert(forall|i: u8| i < 8 && i != n ==> (((a | (1u8 << n)) >> i) & 1 == 1) == ((a >> i) & 1 == 1)) by (bit_vector)
            requires n < 8;
    } else {
        assert(((a & !(1u8 << n)) >> n) & 1 == 0) by (bit_vector)
            requires n < 8;
        assert(forall|i: u8| i < 8 && i != n ==> (((a & !(1u8 << n)) >> i) & 1 == 1) == ((a >> i) & 1 == 1)) by (bit_vector)
            requires n < 8;
    }
}

/// A zero-filled buffer of `n` words.
pub fn zeroed_u32(n: usize) -> (r: Vec<u32>)
    ensures
        r@ == Seq::new(n as nat, |i: int| 0u32),
{
    let mut r: Vec<u32> = Vec::with_capacity(n);
    let mut i: usize = 0;
    while i < n
        invariant
            i <= n,
            r@ == Seq::new(i as nat, |j: int| 0u32),
        decreases n - i,
    {
        r.push(0);
        i = i + 1;
        assert(r@ =~= Seq::new(i as nat, |j: int| 0u32));
    }
    r
}

/// Byte order of the colours written into the frame buffer.
#[derive(Debug, Clone, Copy, PartialEq, Eq)]
pub enum ColorMode {
    RGBA,
    ARGB,
}

/// The eight buttons of the console.
#[derive(Debug, Clone, Copy, PartialEq, Eq)]
pub enum Button {
    A,
    B,
    START,
    SELECT,
    UP,
    DOWN,
    LEFT,
    RIGHT,
}

/// The bit that stands for each button in an `InputState`.
pub open spec fn button_mask(b: Button) -> u8 {
    match b {
        Button::RIGHT => 0b0000_0001,
        Button::LEFT => 0b0000_0010,
        Button::UP => 0b0000_0100,
        Button::DOWN => 0b0000_1000,
        Button::A => 0b0001_0000,
        Button::B => 0b0010_0000,
        Button::SELECT => 0b0100_0000,
        Button::START => 0b1000_0000,
    }
}

impl Button {
    /// The flag that stands for this button.
    pub fn flag(&self) -> (r: ButtonFlag)
        ensures
            r.bits == button_mask(*self),
    {
        match self {
            Button::A => ButtonFlag::A(),
            Button::B => ButtonFlag::B(),
            Button::START => ButtonFlag::START(),
            Button::SELECT => ButtonFlag::SELECT(),
            Button::UP => ButtonFlag::UP(),
            Button::DOWN => ButtonFlag::DOWN(),
            Button::LEFT => ButtonFlag::LEFT(),
            Button::RIGHT => ButtonFlag::RIGHT(),
        }
    }
}

/// A set of buttons, one bit each.
#[derive(Debug, Clone, Copy, PartialEq, Eq)]
pub struct ButtonFlag {
    pub bits: u8,
}

impl ButtonFlag {
    pub fn RIGHT() -> (r: ButtonFlag)
        ensures r.bits == 0b0000_0001,
    {
        ButtonFlag { bits: 0b0000_0001 }
    }

    pub fn LEFT() -> (r: ButtonFlag)
        ensures r.bits == 0b0000_0010,
    {
        ButtonFlag { bits: 0b0000_0010 }
    }

    pub fn UP() -> (r: ButtonFlag)
        ensures r.bits == 0b0000_0100,
    {
        ButtonFlag { bits: 0b0000_0100 }
    }

    pub fn DOWN() -> (r: ButtonFlag)
        ensures r.bits == 0b0000_1000,
    {
        ButtonFlag { bits: 0b0000_1000 }
    }

    pub fn A() -> (r: ButtonFlag)
        ensures r.bits == 0b0001_0000,
    {
        ButtonFlag { bits: 0b0001_0000 }
    }

    pub fn B() -> (r: ButtonFlag)
        ensures r.bits == 0b0010_0000,
    {
        ButtonFlag { bits: 0b0010_0000 }
    }

    pub fn SELECT() -> (r: ButtonFlag)
        ensures r.bits == 0b0100_0000,
    {
        ButtonFlag { bits: 0b0100_0000 }
    }

    pub fn START() -> (r: ButtonFlag)
        ensures r.bits == 0b1000_0000,
    {
        ButtonFlag { bits: 0b1000_0000 }
    }

    /// The empty set.
    pub fn empty() -> (r: ButtonFlag)
        ensures r.bits == 0,
    {
        ButtonFlag { bits: 0 }
    }

    /// Whether every button of `other` is in `self`.
    pub fn contains(&self, other: ButtonFlag) -> (r: bool)
        ensures r == (self.bits & other.bits == other.bits),
    {
        self.bits & other.bits == other.bits
    }

    /// Adds the buttons of `other` when `value` holds, removes them otherwise.
    pub fn set(&mut self, other: ButtonFlag, value: bool)
        ensures
            final(self).bits == if value { old(self).bits | other.bits } else { old(self).bits & !other.bits },
    {
        if value {
            self.bits = self.bits | other.bits;
        } else {
            self.bits = self.bits & !other.bits;
        }
    }
}

/// What a button press does to the pressed set.
pub open spec fn spec_update(bits: u8, b: Button, pressed: bool) -> u8 {
    if pressed {
        bits | button_mask(b)
    } else {
        bits & !button_mask(b)
    }
}

/// Whether a button is in the pressed set.
pub open spec fn spec_pressed(bits: u8, b: Button) -> bool {
    bits & button_mask(b) != 0
}

/// The buttons that are currently held down.
#[derive(Debug, Clone, Copy, PartialEq, Eq)]
pub struct InputState {
    pub buttons: ButtonFlag,
}

impl View for InputState {
    type V = u8;

    open spec fn view(&self) -> u8 {
        self.buttons.bits
    }
}

impl InputState {
    /// No button held.
    pub fn new() -> (r: InputState)
        ensures r@ == 0,
    {
        InputState { buttons: ButtonFlag::empty() }
    }

    /// Records that `button` is now held (`pressed`) or released.
    pub fn update(&mut self, button: Button, pressed: bool)
        ensures
            final(self)@ == spec_update(old(self)@, button, pressed),
    {
        let flag = button.flag();
        self.buttons.set(flag, pressed);
    }

    /// Whether `button` is held.
    pub fn pressed(&self, button: Button) -> (r: bool)
        ensures
            r == spec_pressed(self@, button),
    {
        let flag = button.flag();
        let r = self.buttons.contains(flag);
        proof {
            let m = button_mask(button);
            let b = self@;
            assert(m == 1 || m == 2 || m == 4 || m == 8 || m == 16 || m == 32 || m == 64 || m == 128);
            assert((m == 1 || m == 2 || m == 4 || m == 8 || m == 16 || m == 32 || m == 64 || m == 128)
                ==> ((b & m == m) == (b & m != 0))) by (bit_vector);
        }
        r
    }

    /// Releases every button.
    pub fn clear(&mut self)
        ensures
            final(self)@ == 0,
    {
        self.buttons = ButtonFlag::empty();
    }

    /// The state whose held buttons are the set bits of `bits`.
    pub fn from_bits(bits: u8) -> (r: InputState)
        ensures
            r@ == bits,
    {
        InputState { buttons: ButtonFlag { bits } }
    }

    /// One bit per held button, as laid out in `button_mask`.
    pub fn bits(&self) -> (r: u8)
        ensures
            r == self@,
    {
        self.buttons.bits
    }
}

/// After a button is pressed it reads as held, after it is released it reads as
/// not held, and no other button changes.
pub proof fn lemma_update_pressed(bits: u8, b: Button, c: Button, pressed: bool)
    ensures
        spec_pressed(spec_update(bits, b, pressed), b) == pressed,
        c != b ==> spec_pressed(spec_update(bits, b, pressed), c) == spec_pressed(bits, c),
{
    let m = button_mask(b);
    let k = button_mask(c);
    assert(m == 1 || m == 2 || m == 4 || m == 8 || m == 16 || m == 32 || m == 64 || m == 128);
    assert(k == 1 || k == 2 || k == 4 || k == 8 || k == 16 || k == 32 || k == 64 || k == 128);
    assert(c != b ==> m != k);
    assert((m == 1 || m == 2 || m == 4 || m == 8 || m == 16 || m == 32 || m == 64 || m == 128)
        ==> ((bits | m) & m != 0) && ((bits & !m) & m == 0)) by (bit_vector);
    assert((m == 1 || m == 2 || m == 4 || m == 8 || m == 16 || m == 32 || m == 64 || m == 128)
        && (k == 1 || k == 2 || k == 4 || k == 8 || k == 16 || k == 32 || k == 64 || k == 128) && m != k
        ==> (((bits | m) & k != 0) == (bits & k != 0)) && (((bits & !m) & k != 0) == (bits & k != 0))) by (bit_vector);
}

} // verus!
