use vstd::prelude::*;
use std::time::UNIX_EPOCH;

verus! {

/// Number of bytes of the clock's save data: five registers and a timestamp.
pub const RTC_SAVE_LEN: usize = 13;

/// The five registers of the real-time clock.
#[derive(Debug, Clone, Copy, PartialEq, Eq)]
pub struct RtcState {
    pub s: u8,
    pub m: u8,
    pub h: u8,
    pub dl: u8,
    pub dh: u8,
}

/// The day counter: bit 0 of `dh` above the eight bits of `dl`.
pub open spec fn spec_day(st: RtcState) -> int {
    (st.dh % 2) as int * 256 + st.dl as int
}

/// Whether the clock is stopped (bit 6 of `dh`).
pub open spec fn spec_halted(st: RtcState) -> bool {
    (st.dh / 64) % 2 == 1
}

/// The registers with the day counter set to `day` (which is below 512).
pub open spec fn spec_set_day(st: RtcState, day: int) -> RtcState {
    RtcState {
        dl: (day % 256) as u8,
        dh: ((st.dh / 2) * 2 + (day / 256) % 2) as u8,
        ..st
    }
}

/// The registers after `secs` seconds, for `secs` at most 60.
pub open spec fn spec_tick(st: RtcState, secs: int) -> RtcState {
    let s = st.s + secs;
    if s < 60 {
        RtcState { s: s as u8, ..st }
    } else if st.m + 1 < 60 {
        RtcState { s: (s % 60) as u8, m: (st.m + 1) as u8, ..st }
    } else if st.h + 1 < 24 {
        RtcState { s: (s % 60) as u8, m: 0, h: (st.h + 1) as u8, ..st }
    } else {
        let day = spec_day(st) + 1;
        let st2 = RtcState { s: (s % 60) as u8, m: 0, h: 0, ..st };
        if day == 512 {
            spec_set_day(RtcState { dh: st2.dh | 0x80, ..st2 }, 0)
        } else {
            spec_set_day(st2, day)
        }
    }
}

/// The registers after `secs` seconds, counted in steps of at most a minute.
pub open spec fn spec_advance(st: RtcState, secs: nat) -> RtcState
    decreases secs,
{
    if secs == 0 {
        st
    } else {
        let step: nat = if secs < 60 { secs } else { 60 };
        spec_advance(spec_tick(st, step as int), (secs - step) as nat)
    }
}

impl RtcState {
    /// The invariant that keeps the counters from overflowing.
    pub open spec fn wf(&self) -> bool {
        self.s < 196 && self.m < 60 && self.h < 24
    }

    /// Registers read from a save file.
    pub fn new(values: &Vec<u8>) -> (r: RtcState)
        requires
            values@.len() >= 5,
        ensures
            r == (RtcState { s: values@[0], m: values@[1], h: values@[2], dl: values@[3], dh: values@[4] }),
    {
        RtcState { s: values[0], m: values[1], h: values[2], dl: values[3], dh: values[4] }
    }

    pub fn day(&self) -> (r: u16)
        ensures
            r == spec_day(*self),
    {
        let dh = self.dh as u16;
        let dl = self.dl as u16;
        assert(((dh & 0x01) << 8) | dl == (dh % 2) * 256 + dl) by (bit_vector)
            requires dh < 256, dl < 256;
        ((self.dh as u16 & 0x01) << 8) | self.dl as u16
    }

    pub fn set_day(&mut self, day: u16)
        requires
            day < 512,
        ensures
            *final(self) == spec_set_day(*old(self), day as int),
    {
        let dh = self.dh;
        assert((day & 0xFF) as u8 == (day % 256) as u8) by (bit_vector);
        assert((dh & !0x01u8) | ((day >> 8) as u8 & 0x01) == ((dh / 2) * 2 + (day / 256) % 2) as u8) by (bit_vector)
            requires day < 512;
        self.dl = (day & 0xFF) as u8;
        self.dh = (self.dh & !0x01) | ((day >> 8) as u8 & 0x01);
    }

    pub fn halted(&self) -> (r: bool)
        ensures
            r == spec_halted(*self),
    {
        let dh = self.dh;
        proof { crate::bits::lemma_u8_bits(dh); }
        self.dh & 0x40 != 0
    }

    pub fn set_carry(&mut self)
        ensures
            *final(self) == (RtcState { dh: old(self).dh | 0x80, ..*old(self) }),
    {
        self.dh = self.dh | 0x80;
    }

    /// The registers in save order.
    pub fn values(&self) -> (r: Vec<u8>)
        ensures
            r@ == seq![self.s, self.m, self.h, self.dl, self.dh],
    {
        let r = vec![self.s, self.m, self.h, self.dl, self.dh];
        assert(r@ =~= seq![self.s, self.m, self.h, self.dl, self.dh]);
        r
    }

    /// The registers after `secs` seconds, for `secs` at most 60.
    pub fn tick(&mut self, secs: u32)
        requires
            old(self).wf(),
            secs <= 60,
        ensures
            final(self).wf(),
            *final(self) == spec_tick(*old(self), secs as int),
    {
        self.s = self.s + secs as u8;
        if self.s >= 60 {
            self.s = self.s % 60;
            self.m = self.m + 1;
            if self.m == 60 {
                self.m = 0;
                self.h = self.h + 1;
                if self.h == 24 {
                    self.h = 0;
                    let mut day = self.day() + 1;
                    if day == 512 {
                        day = 0;
                        self.set_carry();
                    }
                    self.set_day(day);
                }
            }
        }
    }
}

/// `SystemTime::elapsed` (std) on `UNIX_EPOCH`: the whole seconds that the
/// machine's clock shows since 1970, or 0 when the clock is set earlier.
/// Nothing is promised of the result: it depends on the machine's clock.
#[verifier::external_body]
pub(crate) fn current_unix_time() -> u64 {
    match UNIX_EPOCH.elapsed() {
        Ok(d) => d.as_secs(),
        Err(_) => 0,
    }
}

/// The eight bytes of `x`, least significant first.
pub open spec fn u64_le_bytes(x: u64) -> Seq<u8> {
    Seq::new(8, |i: int| ((x >> (8 * i) as u64) & 0xFF) as u8)
}

/// The number whose bytes, least significant first, are `b[0..8]`.
pub open spec fn u64_from_le(b: Seq<u8>) -> u64 {
    (b[0] as u64) | ((b[1] as u64) << 8) | ((b[2] as u64) << 16) | ((b[3] as u64) << 24)
        | ((b[4] as u64) << 32) | ((b[5] as u64) << 40) | ((b[6] as u64) << 48) | ((b[7] as u64) << 56)
}

/// Reading back the bytes of a timestamp gives the timestamp.
pub proof fn lemma_le_bytes_roundtrip(x: u64)
    ensures
        u64_from_le(u64_le_bytes(x)) == x,
{
    let b = u64_le_bytes(x);
    assert(x >> 0u64 == x) by (bit_vector);
    assert(b[0] == (x & 0xFF) as u8);
    assert(b[1] == ((x >> 8) & 0xFF) as u8);
    assert(b[2] == ((x >> 16) & 0xFF) as u8);
    assert(b[3] == ((x >> 24) & 0xFF) as u8);
    assert(b[4] == ((x >> 32) & 0xFF) as u8);
    assert(b[5] == ((x >> 40) & 0xFF) as u8);
    assert(b[6] == ((x >> 48) & 0xFF) as u8);
    assert(b[7] == ((x >> 56) & 0xFF) as u8);
    let (b0, b1, b2, b3, b4, b5, b6, b7) = (b[0], b[1], b[2], b[3], b[4], b[5], b[6], b[7]);
    assert((b0 as u64) | ((b1 as u64) << 8) | ((b2 as u64) << 16) | ((b3 as u64) << 24)
        | ((b4 as u64) << 32) | ((b5 as u64) << 40) | ((b6 as u64) << 48) | ((b7 as u64) << 56) == x) by (bit_vector)
        requires
            b0 == (x & 0xFF) as u8,
            b1 == ((x >> 8) & 0xFF) as u8,
            b2 == ((x >> 16) & 0xFF) as u8,
            b3 == ((x >> 24) & 0xFF) as u8,
            b4 == ((x >> 32) & 0xFF) as u8,
            b5 == ((x >> 40) & 0xFF) as u8,
            b6 == ((x >> 48) & 0xFF) as u8,
            b7 == ((x >> 56) & 0xFF) as u8;
}

/// The real-time clock of MBC3 cartridges: live registers that follow the
/// machine's clock, and a latched copy that the game reads.
pub struct RTC {
    pub live: RtcState,
    pub latched: RtcState,
    pub latched_valid: bool,
    pub last_update: u64,
}

/// The distance between two timestamps.
pub open spec fn spec_abs_diff(a: u64, b: u64) -> nat {
    if a >= b { (a - b) as nat } else { (b - a) as nat }
}

/// The clock after catching up with time `now`.
pub open spec fn spec_update(rtc: RTC, now: u64) -> RTC {
    let delta = spec_abs_diff(rtc.last_update, now);
    let rtc2 = RTC { last_update: now, ..rtc };
    if delta == 0 || spec_halted(rtc.live) {
        rtc2
    } else {
        RTC { live: spec_advance(rtc.live, delta), ..rtc2 }
    }
}

/// The value of register `reg` of a register set.
pub open spec fn spec_register(st: RtcState, reg: u8) -> u8 {
    if reg == 0x08 {
        st.s
    } else if reg == 0x09 {
        st.m
    } else if reg == 0x0A {
        st.h
    } else if reg == 0x0B {
        st.dl
    } else if reg == 0x0C {
        st.dh
    } else {
        0xFF
    }
}

/// What the game reads from register `reg` at time `now`.
pub open spec fn spec_rtc_read(rtc: RTC, reg: u8, now: u64) -> u8 {
    let r = spec_update(rtc, now);
    spec_register(if r.latched_valid { r.latched } else { r.live }, reg)
}

/// The clock after the game writes `value` to register `reg` at time `now`.
pub open spec fn spec_rtc_write(rtc: RTC, reg: u8, value: u8, now: u64) -> RTC {
    let r = spec_update(rtc, now);
    let l = r.live;
    let live = if reg == 0x08 {
        RtcState { s: value % 60, ..l }
    } else if reg == 0x09 {
        RtcState { m: value % 60, ..l }
    } else if reg == 0x0A {
        RtcState { h: value % 24, ..l }
    } else if reg == 0x0B {
        RtcState { dl: value, ..l }
    } else if reg == 0x0C {
        RtcState { dh: value & 0xC1, ..l }
    } else {
        l
    };
    RTC { live, ..r }
}

/// The clock after a latch at time `now`.
pub open spec fn spec_rtc_latch(rtc: RTC, now: u64) -> RTC {
    let r = spec_update(rtc, now);
    RTC { latched: r.live, latched_valid: true, ..r }
}

/// The save data of the clock: its live registers and the time of the last update.
pub open spec fn spec_rtc_save_data(rtc: RTC) -> Seq<u8> {
    seq![rtc.live.s, rtc.live.m, rtc.live.h, rtc.live.dl, rtc.live.dh] + u64_le_bytes(rtc.last_update)
}

/// Whether save data can be loaded: long enough, with counters in range.
pub open spec fn spec_rtc_data_valid(data: Seq<u8>) -> bool {
    data.len() >= RTC_SAVE_LEN && data[0] < 196 && data[1] < 60 && data[2] < 24
}

/// The contents of an optional byte buffer.
pub open spec fn opt_bytes(data: Option<&Vec<u8>>) -> Option<Seq<u8>> {
    match data {
        Some(d) => Some(d@),
        None => None,
    }
}

/// The clock after loading save data (when there is some) at time `now`.
pub open spec fn spec_rtc_load(rtc: RTC, data: Option<Seq<u8>>, now: u64) -> RTC {
    match data {
        Some(d) => spec_update(
            RTC {
                live: RtcState { s: d[0], m: d[1], h: d[2], dl: d[3], dh: d[4] },
                last_update: u64_from_le(d.subrange(5, 13)),
                ..rtc
            },
            now,
        ),
        None => spec_update(rtc, now),
    }
}

impl RTC {
    /// The invariant of the clock.
    pub open spec fn wf(&self) -> bool {
        self.live.wf()
    }

    /// A clock at zero, last updated at `now`.
    pub fn new_at(now: u64) -> (r: RTC)
        ensures
            r.wf(),
            r.live == (RtcState { s: 0, m: 0, h: 0, dl: 0, dh: 0 }),
            r.latched == (RtcState { s: 0, m: 0, h: 0, dl: 0, dh: 0 }),
            !r.latched_valid,
            r.last_update == now,
    {
        RTC {
            live: RtcState { s: 0, m: 0, h: 0, dl: 0, dh: 0 },
            latched: RtcState { s: 0, m: 0, h: 0, dl: 0, dh: 0 },
            latched_valid: false,
            last_update: now,
        }
    }

    /// A clock at zero, last updated now.
    pub fn default() -> (r: RTC)
        ensures
            r.wf(),
            r.live == (RtcState { s: 0, m: 0, h: 0, dl: 0, dh: 0 }),
            r.latched == (RtcState { s: 0, m: 0, h: 0, dl: 0, dh: 0 }),
            !r.latched_valid,
    {
        RTC::new_at(current_unix_time())
    }

    /// Advances the live registers by `secs` seconds.
    pub fn advance_seconds(&mut self, secs: u64)
        requires
            old(self).wf(),
        ensures
            final(self).wf(),
            *final(self) == (RTC { live: spec_advance(old(self).live, secs as nat), ..*old(self) }),
    {
        let ghost target = spec_advance(self.live, secs as nat);
        let mut secs = secs;
        while secs > 0
            invariant
                self.wf(),
                spec_advance(self.live, secs as nat) == target,
                self.latched == old(self).latched,
                self.latched_valid == old(self).latched_valid,
                self.last_update == old(self).last_update,
            decreases secs,
        {
            let step: u64 = if secs < 60 { secs } else { 60 };
            self.live.tick(step as u32);
            secs = secs - step;
        }
    }

    /// Catches up with time `now`.
    pub fn update_at(&mut self, now: u64)
        requires
            old(self).wf(),
        ensures
            final(self).wf(),
            *final(self) == spec_update(*old(self), now),
    {
        let delta: u64 = if self.last_update >= now { self.last_update - now } else { now - self.last_update };
        self.last_update = now;
        if delta == 0 || self.live.halted() {
            return;
        }
        self.advance_seconds(delta);
    }

    /// Reads register `reg` at time `now`.
    pub fn read_at(&mut self, reg: u8, now: u64) -> (r: u8)
        requires
            old(self).wf(),
        ensures
            final(self).wf(),
            *final(self) == spec_update(*old(self), now),
            r == spec_rtc_read(*old(self), reg, now),
    {
        self.update_at(now);
        let state = if self.latched_valid { self.latched } else { self.live };
        match reg {
            0x08 => state.s,
            0x09 => state.m,
            0x0A => state.h,
            0x0B => state.dl,
            0x0C => state.dh,
            _ => 0xFF,
        }
    }

    /// Reads register `reg`, after catching up with the machine's clock.
    pub fn read(&mut self, reg: u8) -> (r: u8)
        requires
            old(self).wf(),
        ensures
            final(self).wf(),
            exists|now: u64|
                *final(self) == spec_update(*old(self), now) && r == #[trigger] spec_rtc_read(*old(self), reg, now),
    {
        let now = current_unix_time();
        self.read_at(reg, now)
    }

    /// Writes register `reg` at time `now`.
    pub fn write_at(&mut self, reg: u8, value: u8, now: u64)
        requires
            old(self).wf(),
        ensures
            final(self).wf(),
            *final(self) == spec_rtc_write(*old(self), reg, value, now),
    {
        self.update_at(now);
        match reg {
            0x08 => self.live.s = value % 60,
            0x09 => self.live.m = value % 60,
            0x0A => self.live.h = value % 24,
            0x0B => self.live.dl = value,
            0x0C => self.live.dh = value & 0xC1,
            _ => {},
        }
    }

    /// Writes register `reg`, after catching up with the machine's clock.
    pub fn write(&mut self, reg: u8, value: u8)
        requires
            old(self).wf(),
        ensures
            final(self).wf(),
            exists|now: u64| *final(self) == #[trigger] spec_rtc_write(*old(self), reg, value, now),
    {
        let now = current_unix_time();
        self.write_at(reg, value, now);
    }

    /// Copies the live registers into the latched ones, at time `now`.
    pub fn latch_at(&mut self, now: u64)
        requires
            old(self).wf(),
        ensures
            final(self).wf(),
            *final(self) == spec_rtc_latch(*old(self), now),
    {
        self.update_at(now);
        self.latched = self.live;
        self.latched_valid = true;
    }

    /// Copies the live registers into the latched ones, after catching up with
    /// the machine's clock.
    pub fn latch(&mut self)
        requires
            old(self).wf(),
        ensures
            final(self).wf(),
            exists|now: u64| *final(self) == #[trigger] spec_rtc_latch(*old(self), now),
    {
        let now = current_unix_time();
        self.latch_at(now);
    }

    /// The save data, after catching up with time `now`.
    pub fn save_at(&mut self, now: u64) -> (r: Vec<u8>)
        requires
            old(self).wf(),
        ensures
            final(self).wf(),
            *final(self) == spec_update(*old(self), now),
            r@ == spec_rtc_save_data(*final(self)),
    {
        self.update_at(now);
        let mut r = self.live.values();
        let t = self.last_update;
        let mut i: u64 = 0;
        while i < 8
            invariant
                i <= 8,
                r@ == seq![self.live.s, self.live.m, self.live.h, self.live.dl, self.live.dh]
                    + u64_le_bytes(t).subrange(0, i as int),
            decreases 8 - i,
        {
            r.push(((t >> (8 * i)) & 0xFF) as u8);
            i = i + 1;
            assert(r@ =~= seq![self.live.s, self.live.m, self.live.h, self.live.dl, self.live.dh]
                + u64_le_bytes(t).subrange(0, i as int));
        }
        assert(u64_le_bytes(t).subrange(0, 8) =~= u64_le_bytes(t));
        r
    }

    /// The save data, after catching up with the machine's clock.
    pub fn save(&mut self) -> (r: Vec<u8>)
        requires
            old(self).wf(),
        ensures
            final(self).wf(),
            exists|now: u64| *final(self) == #[trigger] spec_update(*old(self), now),
            r@ == spec_rtc_save_data(*final(self)),
    {
        let now = current_unix_time();
        self.save_at(now)
    }

    /// Whether save data can be loaded.
    pub fn data_valid(data: &Vec<u8>) -> (r: bool)
        ensures
            r == spec_rtc_data_valid(data@),
    {
        data.len() >= RTC_SAVE_LEN && data[0] < 196 && data[1] < 60 && data[2] < 24
    }

    /// Loads save data when there is some, then catches up with time `now`.
    pub fn load_at(&mut self, data: Option<&Vec<u8>>, now: u64)
        requires
            old(self).wf(),
            data matches Some(d) ==> spec_rtc_data_valid(d@),
        ensures
            final(self).wf(),
            *final(self) == spec_rtc_load(*old(self), opt_bytes(data), now),
    {
        match data {
            Some(d) => {
                self.live = RtcState::new(d);
                let ghost b = d@.subrange(5, 13);
                let t: u64 = (d[5] as u64) | ((d[6] as u64) << 8) | ((d[7] as u64) << 16) | ((d[8] as u64) << 24)
                    | ((d[9] as u64) << 32) | ((d[10] as u64) << 40) | ((d[11] as u64) << 48) | ((d[12] as u64) << 56);
                assert(t == u64_from_le(b));
                self.last_update = t;
            },
            None => {},
        }
        self.update_at(now);
    }

    /// Loads save data when there is some, then catches up with the machine's clock.
    pub fn load(&mut self, data: Option<&Vec<u8>>)
        requires
            old(self).wf(),
            data matches Some(d) ==> spec_rtc_data_valid(d@),
        ensures
            final(self).wf(),
            exists|now: u64| *final(self) == #[trigger] spec_rtc_load(*old(self), opt_bytes(data), now),
    {
        let now = current_unix_time();
        self.load_at(data, now);
    }
}

/// Loading the save data of a clock gives back its registers and timestamp.
pub proof fn lemma_rtc_save_load(rtc: RTC, other: RTC, now: u64)
    requires
        rtc.wf(),
        other.wf(),
    ensures
        spec_rtc_data_valid(spec_rtc_save_data(rtc)),
        spec_rtc_load(other, Some(spec_rtc_save_data(rtc)), now)
            == spec_update(RTC { live: rtc.live, last_update: rtc.last_update, ..other }, now),
{
    let d = spec_rtc_save_data(rtc);
    assert(d.subrange(5, 13) =~= u64_le_bytes(rtc.last_update));
    lemma_le_bytes_roundtrip(rtc.last_update);
}

/// The clock after the game's reads and writes `ops`, in order: each is
/// (whether it writes, register, value written, time); a read catches the
/// clock up with its time.
pub open spec fn spec_rtc_accesses(rtc: RTC, ops: Seq<(bool, u8, u8, u64)>) -> RTC
    decreases ops.len(),
{
    if ops.len() == 0 {
        rtc
    } else {
        let before = spec_rtc_accesses(rtc, ops.drop_last());
        let op = ops.last();
        if op.0 { spec_rtc_write(before, op.1, op.2, op.3) } else { spec_update(before, op.3) }
    }
}

/// A latch freezes what the game reads: after a latch at time `now`, the
/// latched registers are the live ones caught up with `now`, and whatever
/// reads and writes follow, at whatever times, every read of a clock register
/// gives the latched value, until the next latch.
pub proof fn lemma_latch_persists(rtc: RTC, now: u64, ops: Seq<(bool, u8, u8, u64)>, reg: u8, t: u64)
    ensures
        spec_rtc_latch(rtc, now).latched == spec_update(rtc, now).live,
        spec_rtc_accesses(spec_rtc_latch(rtc, now), ops).latched == spec_update(rtc, now).live,
        spec_rtc_accesses(spec_rtc_latch(rtc, now), ops).latched_valid,
        spec_rtc_read(spec_rtc_accesses(spec_rtc_latch(rtc, now), ops), reg, t)
            == spec_register(spec_update(rtc, now).live, reg),
    decreases ops.len(),
{
    if ops.len() > 0 {
        lemma_latch_persists(rtc, now, ops.drop_last(), reg, t);
    }
}

/// Seconds in the clock's full range: 512 days.
pub open spec fn clock_period() -> int {
    512int * 86400
}

/// The time that the registers show, in seconds since day 0, 00:00:00.
pub open spec fn clock_seconds(st: RtcState) -> int {
    st.s + 60 * st.m + 3600 * st.h + 86400 * spec_day(st)
}

/// Whether the registers hold a valid time of day.
pub open spec fn clock_normal(st: RtcState) -> bool {
    st.s < 60 && st.m < 60 && st.h < 24
}

/// One step of at most a minute adds its seconds to the time shown, modulo
/// the clock's range, and keeps the stop bit.
proof fn lemma_tick_seconds(st: RtcState, secs: int)
    requires
        clock_normal(st),
        0 < secs <= 60,
    ensures
        clock_normal(spec_tick(st, secs)),
        clock_seconds(spec_tick(st, secs)) == (clock_seconds(st) + secs) % clock_period(),
        spec_halted(spec_tick(st, secs)) == spec_halted(st),
{
    let dh = st.dh;
    crate::bits::lemma_u8_bits(dh);
    let day = spec_day(st);
    let p = clock_period();
    let t = clock_seconds(st) + secs;
    assert(0 <= day < 512);
    assert forall|d: u8, x: int| 0 <= x < 2 implies #[trigger] ((((d / 2) * 2 + x) as u8) / 64) % 2 == (d / 64) % 2
        && (((d / 2) * 2 + x) as u8) % 2 == x by {
    }
    let n = spec_tick(st, secs);
    if st.s + secs >= 60 && st.m + 1 >= 60 && st.h + 1 >= 24 {
        let d2 = day + 1;
        let x = (d2 / 256) % 2;
        if d2 == 512 {
            assert(spec_day(n) == 0);
            assert(clock_seconds(n) == t - p);
            vstd::arithmetic::div_mod::lemma_fundamental_div_mod_converse(t, p, 1, t - p);
        } else {
            assert(spec_day(n) == d2);
            assert(clock_seconds(n) == t);
            vstd::arithmetic::div_mod::lemma_small_mod(t as nat, p as nat);
        }
    } else {
        assert(spec_day(n) == day);
        assert(clock_seconds(n) == t);
        vstd::arithmetic::div_mod::lemma_small_mod(t as nat, p as nat);
    }
}

/// The clock counts seconds: advancing the registers of a valid time by
/// `secs` seconds adds `secs` to the time shown, modulo 512 days, and keeps
/// the stop bit.
pub proof fn lemma_advance_seconds(st: RtcState, secs: nat)
    requires
        clock_normal(st),
    ensures
        clock_normal(spec_advance(st, secs)),
        clock_seconds(spec_advance(st, secs)) == (clock_seconds(st) + secs) % clock_period(),
        spec_halted(spec_advance(st, secs)) == spec_halted(st),
    decreases secs,
{
    let p = clock_period();
    if secs == 0 {
        assert(0 <= clock_seconds(st) < p);
        vstd::arithmetic::div_mod::lemma_small_mod(clock_seconds(st) as nat, p as nat);
    } else {
        let step: nat = if secs < 60 { secs } else { 60 };
        let next = spec_tick(st, step as int);
        lemma_tick_seconds(st, step as int);
        lemma_advance_seconds(next, (secs - step) as nat);
        vstd::arithmetic::div_mod::lemma_add_mod_noop_right((secs - step) as int, clock_seconds(st) + step, p);
    }
}

/// A stopped clock does not run: catching up with the time changes only the
/// timestamp.
pub proof fn lemma_stopped_clock(rtc: RTC, now: u64)
    requires
        spec_halted(rtc.live),
    ensures
        spec_update(rtc, now).live == rtc.live,
        spec_update(rtc, now).latched == rtc.latched,
        spec_update(rtc, now).last_update == now,
{
}

} // verus!
