//! Square-wave channel: duty sequencer, volume envelope, length counter
//! and frequency sweep unit.
use vstd::prelude::*;

use crate::apu::{length_load_value, ApuSnapshot, LENGTH_TABLE};
use crate::bits::{lemma_u16, lemma_u64, lemma_u8, lemma_u8_pair};
use crate::bus::{AddressBus, AndEqualsAndMask, DeviceKind};
use crate::channel::{Channel, ChannelCall};

verus! {

#[derive(Copy, Clone, Debug, PartialEq, Eq, Structural)]
pub enum PulseChannel {
    InternalOne,
    InternalTwo,
}

/// The eight-step waveform of each duty setting.
pub open spec fn duty_bit(duty: u8, step: u8) -> bool {
    let s = step % 8;
    match duty % 4 {
        0 => s == 1,
        1 => s == 1 || s == 2,
        2 => 1 <= s <= 4,
        _ => !(s == 1 || s == 2),
    }
}

pub struct Pulse {
    channel: PulseChannel,
    period: u16,
    timer_counter: u16,
    length_counter: u8,
    sequencer: u8,
    enabled: bool,
    envelope_start: bool,
    envelope_divider: u8,
    decay_counter: u8,
    sweep_reload: bool,
    sweep_divider: u8,
    regs: [u8; 4],
    current_tick: u64,
    forced_clock: bool,
}

impl Pulse {
    /// The channel after $4015 turns it on (`on`) or off: off also clears
    /// the length counter; nothing else changes.
    pub closed spec fn switched(self, on: bool) -> Self {
        if on {
            Self { enabled: true, ..self }
        } else {
            Self { enabled: false, length_counter: 0, ..self }
        }
    }

    /// The channel once a forced frame clock is requested.
    pub closed spec fn forced(self) -> Self {
        Self { forced_clock: true, ..self }
    }

    /// `self` is what a write of `value` to register `addr` leaves of
    /// `old`: registers 2 and 3 reload the period, register 1 restarts the
    /// sweep, register 3 also restarts the sequencer and the envelope and
    /// loads the length counter (0 while the channel is off).
    pub closed spec fn written_from(self, old: Self, addr: u16, value: u8) -> bool {
        &&& self.regs@ == old.regs@.update(addr as int, value)
        &&& self == Self {
            regs: self.regs,
            sweep_reload: if addr == 1 { true } else { old.sweep_reload },
            period: if addr == 2 || addr == 3 { self.spec_timer_load() } else { old.period },
            sequencer: if addr == 3 { 0 } else { old.sequencer },
            length_counter: if addr == 3 { self.spec_length_load() } else { old.length_counter },
            envelope_start: if addr == 3 { true } else { old.envelope_start },
            ..old
        }
    }

    /// `next` is what `call` leaves of the channel.
    pub open spec fn called(self, call: ChannelCall, next: Self) -> bool {
        match call {
            ChannelCall::Write(addr, value) => addr < 4 && next.written_from(self, addr, value),
            ChannelCall::Enable => next == self.switched(true),
            ChannelCall::Disable => next == self.switched(false),
            ChannelCall::ForcedClock => next == self.forced(),
            ChannelCall::Tick(state) => next == self.tick_post(state).0,
        }
    }

    /// CPU cycles the channel has run.
    pub closed spec fn ticks(&self) -> u64 {
        self.current_tick
    }

    pub closed spec fn spec_channel(&self) -> PulseChannel {
        self.channel
    }

    pub closed spec fn spec_regs(&self) -> Seq<u8> {
        self.regs@
    }

    pub closed spec fn spec_period(&self) -> u16 {
        self.period
    }

    pub closed spec fn spec_length_counter(&self) -> u8 {
        self.length_counter
    }

    pub closed spec fn spec_enabled(&self) -> bool {
        self.enabled
    }

    pub closed spec fn spec_forced_clock(&self) -> bool {
        self.forced_clock
    }

    /// The 11-bit period written through registers 2 and 3.
    pub open spec fn spec_timer_load(&self) -> u16 {
        (self.spec_regs()[2] + (self.spec_regs()[3] % 8) * 0x100) as u16
    }

    pub closed spec fn spec_length_load(&self) -> u8 {
        if !self.enabled { 0 } else { LENGTH_TABLE@[(self.regs@[3] / 8) as int] }
    }

    pub open spec fn spec_volume(&self) -> u8 {
        self.spec_regs()[0] % 16
    }

    pub open spec fn spec_constant_volume(&self) -> bool {
        (self.spec_regs()[0] / 16) % 2 == 1
    }

    pub open spec fn spec_halt(&self) -> bool {
        (self.spec_regs()[0] / 32) % 2 == 1
    }

    pub closed spec fn spec_envelope_output(&self) -> u8 {
        if self.spec_constant_volume() { self.spec_volume() } else { self.decay_counter }
    }

    pub open spec fn spec_shift(&self) -> u8 {
        self.spec_regs()[1] % 8
    }

    pub open spec fn spec_negate(&self) -> bool {
        (self.spec_regs()[1] / 8) % 2 == 1
    }

    pub open spec fn spec_sweep_load(&self) -> u8 {
        (self.spec_regs()[1] / 16) % 8
    }

    pub open spec fn spec_sweep_enabled(&self) -> bool {
        self.spec_regs()[1] >= 0x80
    }

    /// The period the sweep unit aims for: the period plus its shifted
    /// copy, or minus it when negating; pulse one negates in ones'
    /// complement, so its target lands one above pulse two's. A negated
    /// change of zero, or one that would not leave a positive period,
    /// leaves the period alone.
    pub closed spec fn spec_sweep_target(&self) -> u16 {
        let change = self.period / pow2_u16(self.spec_shift());
        let extra: int = if self.channel is InternalOne { 1 } else { 0 };
        if !self.spec_negate() {
            (self.period + change) as u16
        } else if change != 0 && self.period + extra > change {
            (self.period - change + extra) as u16
        } else {
            self.period
        }
    }

    pub closed spec fn spec_sweep_muted(&self) -> bool {
        self.period < 8 || self.spec_sweep_target() > 0x7ff
    }

    pub closed spec fn spec_sweep_timer(&self) -> u16 {
        if self.spec_sweep_muted() || !self.spec_sweep_enabled() || self.spec_shift() == 0 {
            self.period
        } else {
            self.spec_sweep_target()
        }
    }

    pub open spec fn spec_sweep_output(&self) -> u8 {
        if self.spec_sweep_muted() { 0 } else { self.spec_envelope_output() }
    }

    /// The timer's countdown to the next sequencer step.
    pub closed spec fn spec_timer_counter(&self) -> u16 {
        self.timer_counter
    }

    pub closed spec fn spec_duty(&self) -> bool {
        duty_bit(self.regs@[0] / 64, self.sequencer)
    }

    /// Registers hold 11-bit periods and 4-bit envelope values.
    pub closed spec fn wf(&self) -> bool {
        &&& self.period <= 0x7ff
        &&& self.decay_counter <= 0xf
    }

    /// The timer half of a cycle: every other CPU cycle the timer counts
    /// down, reloading and stepping the sequencer at zero.
    closed spec fn timer_post(self) -> Pulse {
        let tick = (self.current_tick + 1) as u64;
        let s = Pulse { current_tick: tick, ..self };
        if tick % 2 == 0 {
            if s.timer_counter == 0 {
                Pulse { timer_counter: s.period, sequencer: ((s.sequencer + 1) % 0x100) as u8, ..s }
            } else {
                Pulse { timer_counter: (s.timer_counter - 1) as u16, ..s }
            }
        } else {
            s
        }
    }

    /// A quarter-frame clock of the volume envelope.
    closed spec fn envelope_post(self) -> Pulse {
        if self.envelope_start {
            Pulse { envelope_start: false, decay_counter: 0xf, envelope_divider: self.spec_volume(), ..self }
        } else if self.envelope_divider == 0 {
            let decay = if self.decay_counter == 0 {
                if self.spec_halt() { 0xfu8 } else { 0u8 }
            } else {
                (self.decay_counter - 1) as u8
            };
            Pulse { envelope_divider: self.spec_volume(), decay_counter: decay, ..self }
        } else {
            Pulse { envelope_divider: (self.envelope_divider - 1) as u8, ..self }
        }
    }

    /// A half-frame clock of the length counter and the sweep unit.
    closed spec fn half_frame_post(self) -> Pulse {
        let len = if self.length_counter != 0 && !self.spec_halt() {
            (self.length_counter - 1) as u8
        } else {
            self.length_counter
        };
        let s = Pulse { length_counter: len, ..self };
        if s.sweep_reload {
            Pulse {
                period: if s.sweep_divider == 0 { s.spec_sweep_timer() } else { s.period },
                sweep_divider: s.spec_sweep_load(),
                sweep_reload: false,
                ..s
            }
        } else if s.sweep_divider != 0 {
            Pulse { sweep_divider: (s.sweep_divider - 1) as u8, ..s }
        } else {
            Pulse { period: s.spec_sweep_timer(), sweep_divider: s.spec_sweep_load(), ..s }
        }
    }

    /// One APU cycle and the level it outputs.
    pub closed spec fn tick_post(self, state: ApuSnapshot) -> (Pulse, u8) {
        let s1 = self.timer_post();
        let s2 = if state.is_quarter_frame || self.forced_clock { s1.envelope_post() } else { s1 };
        let s3 = if state.is_half_frame || self.forced_clock { s2.half_frame_post() } else { s2 };
        let s4 = Pulse { forced_clock: false, ..s3 };
        let out = if !s4.spec_duty() || s4.length_counter == 0 || s4.timer_counter < 8 {
            0u8
        } else {
            s4.spec_sweep_output()
        };
        (s4, out)
    }

    pub fn new(channel: PulseChannel) -> (r: Pulse)
        ensures
            r.wf(),
            r.spec_channel() == channel,
            r.spec_regs() == seq![0u8, 0, 0, 0],
            r.spec_period() == 0,
            r.spec_length_counter() == 0,
            !r.spec_enabled(),
            r.can_tick(),
            r.ticks() == 0,
    {
        Pulse {
            channel,
            period: 0,
            timer_counter: 0,
            length_counter: 0,
            sequencer: 0,
            enabled: false,
            envelope_start: false,
            envelope_divider: 0,
            decay_counter: 0,
            sweep_reload: false,
            sweep_divider: 0,
            regs: [0; 4],
            current_tick: 0,
            forced_clock: false,
        }
    }

    /// Makes the next cycle clock the envelope, length and sweep units.
    pub fn forced_clock(&mut self)
        ensures
            *final(self) == old(self).forced(),
            final(self).spec_forced_clock(),
            final(self).wf() == old(self).wf(),
            final(self).can_tick() == old(self).can_tick(),
            final(self).ticks() == old(self).ticks(),
            final(self).spec_channel() == old(self).spec_channel(),
    {
        self.forced_clock = true;
    }

    fn timer_load(&self) -> (r: u16)
        ensures
            r == self.spec_timer_load(),
            r <= 0x7ff,
    {
        let lo = self.regs[2];
        let hi = self.regs[3];
        proof { lemma_u8_pair(lo, hi); }
        (lo as u16) | ((hi as u16 & 7) << 8)
    }

    fn length_load(&self) -> (r: u8)
        ensures
            r == self.spec_length_load(),
    {
        if !self.enabled {
            0
        } else {
            let v = self.regs[3];
            proof { lemma_u8(v); }
            length_load_value(v >> 3 & 0x1f)
        }
    }

    fn envelope_volume(&self) -> (r: u8)
        ensures
            r == self.spec_volume(),
    {
        let v = self.regs[0];
        proof { lemma_u8(v); }
        v & 0xf
    }

    fn envelope_output(&self) -> (r: u8)
        ensures
            r == self.spec_envelope_output(),
    {
        if self.constant_volume() {
            self.envelope_volume()
        } else {
            self.decay_counter
        }
    }

    fn constant_volume(&self) -> (r: bool)
        ensures
            r == self.spec_constant_volume(),
    {
        let v = self.regs[0];
        proof { lemma_u8(v); }
        v & 0x10 != 0
    }

    fn halt(&self) -> (r: bool)
        ensures
            r == self.spec_halt(),
    {
        let v = self.regs[0];
        proof { lemma_u8(v); }
        v & 0x20 != 0
    }

    fn shift_count(&self) -> (r: u8)
        ensures
            r == self.spec_shift(),
    {
        let v = self.regs[1];
        proof { lemma_u8(v); }
        v & 0x7
    }

    fn sweep_negate(&self) -> (r: bool)
        ensures
            r == self.spec_negate(),
    {
        let v = self.regs[1];
        proof { lemma_u8(v); }
        v & 0x8 != 0
    }

    fn sweep_load(&self) -> (r: u8)
        ensures
            r == self.spec_sweep_load(),
    {
        let v = self.regs[1];
        proof { lemma_u8(v); }
        v >> 4 & 0x7
    }

    fn sweep_enabled(&self) -> (r: bool)
        ensures
            r == self.spec_sweep_enabled(),
    {
        let v = self.regs[1];
        proof { lemma_u8(v); }
        v & 0x80 != 0
    }

    fn sweep_target(&self) -> (r: u16)
        requires
            self.wf(),
        ensures
            r == self.spec_sweep_target(),
    {
        let s = self.shift_count();
        let p = self.period;
        let mut period = p >> (s as u16);
        proof {
            lemma_shr_div(p, s);
        }


        let chan: u16 = match self.channel {
            PulseChannel::InternalOne => 1,
            PulseChannel::InternalTwo => 0,
        };

        period = if self.sweep_negate() {
            if period != 0 && self.period > period - chan {
                self.period - (period - chan)
            } else {
                self.period
            }
        } else {
            self.period + period
        };

        period
    }

    fn sweep_timer(&self) -> (r: u16)
        requires
            self.wf(),
        ensures
            r == self.spec_sweep_timer(),
            r <= 0x7ff,
    {
        let target = self.sweep_target();
        if self.period < 8 || target > 0x7ff || !self.sweep_enabled() || self.shift_count() == 0 {
            self.period
        } else {
            target
        }
    }

    fn sweep_output(&self) -> (r: u8)
        requires
            self.wf(),
        ensures
            r == self.spec_sweep_output(),
    {
        let target = self.sweep_target();
        if self.period < 8 || target > 0x7ff {
            0
        } else {
            self.envelope_output()
        }
    }

    fn clock_timer(&mut self)
        requires
            old(self).wf(),
            old(self).current_tick < u64::MAX,
        ensures
            *final(self) == old(self).timer_post(),
            final(self).wf(),
    {
        self.current_tick += 1;
        let c = self.current_tick;
        proof { lemma_u64(c); }
        if c & 1 == 0 {
            if self.timer_counter == 0 {
                self.timer_counter = self.period;
                self.sequencer = self.sequencer.wrapping_add(1);
            } else {
                self.timer_counter -= 1;
            }
        }
    }

    fn clock_envelope(&mut self)
        requires
            old(self).wf(),
        ensures
            *final(self) == old(self).envelope_post(),
            final(self).wf(),
    {
        if self.envelope_start {
            self.envelope_start = false;
            self.decay_counter = 0xf;
            self.envelope_divider = self.envelope_volume();
        } else if self.envelope_divider == 0 {
            self.envelope_divider = self.envelope_volume();
            if self.decay_counter == 0 {
                if self.halt() {
                    self.decay_counter = 0xf
                }
            } else {
                self.decay_counter -= 1;
            }
        } else {
            self.envelope_divider -= 1;
        }
    }

    fn clock_half_frame(&mut self)
        requires
            old(self).wf(),
        ensures
            *final(self) == old(self).half_frame_post(),
            final(self).wf(),
    {
        if self.length_counter != 0 && !self.halt() {
            self.length_counter -= 1;
        }

        if self.sweep_reload {
            if self.sweep_divider == 0 {
                self.period = self.sweep_timer();
            }
            self.sweep_divider = self.sweep_load();
            self.sweep_reload = false;
        } else if self.sweep_divider != 0 {
            self.sweep_divider -= 1;
        } else {
            self.period = self.sweep_timer();
            self.sweep_divider = self.sweep_load();
        }
    }

    fn duty(&self) -> (r: bool)
        ensures
            r == self.spec_duty(),
    {
        let d = self.regs[0];
        let q = self.sequencer;
        proof { lemma_u8(d); lemma_u8(q); }
        let step = q & 7;
        match d >> 6 & 3 {
            0 => step == 1,
            1 => step == 1 || step == 2,
            2 => step >= 1 && step <= 4,
            _ => !(step == 1 || step == 2),
        }
    }
}

/// `2^s` for a sweep shift count.
pub open spec fn pow2_u16(s: u8) -> u16 {
    match s {
        0 => 1,
        1 => 2,
        2 => 4,
        3 => 8,
        4 => 16,
        5 => 32,
        6 => 64,
        _ => 128,
    }
}

proof fn lemma_shr_div(p: u16, s: u8)
    requires
        s < 8,
    ensures
        p >> (s as u16) == p / pow2_u16(s),
        p >> (s as u16) <= p,
{
    lemma_u16(p);
}

impl Channel for Pulse {
    closed spec fn can_tick(&self) -> bool {
        self.wf() && self.current_tick < u64::MAX
    }

    fn register(&self, cpu: &mut AddressBus)
        ensures
            final(cpu).writes() == old(cpu).writes().push(
                match self.spec_channel() {
                    PulseChannel::InternalOne => (
                        crate::bus::MappingFn::AndEqualsAndMask(AndEqualsAndMask(0xfffc, 0x4000, 0x3)),
                        DeviceKind::PulseOne,
                    ),
                    PulseChannel::InternalTwo => (
                        crate::bus::MappingFn::AndEqualsAndMask(AndEqualsAndMask(0xfffc, 0x4004, 0x3)),
                        DeviceKind::PulseTwo,
                    ),
                },
            ),
            final(cpu).reads() == old(cpu).reads(),
    {
        match self.channel {
            PulseChannel::InternalOne => {
                cpu.register_write(DeviceKind::PulseOne, AndEqualsAndMask(0xfffc, 0x4000, 0x3).into());
            },
            PulseChannel::InternalTwo => {
                cpu.register_write(DeviceKind::PulseTwo, AndEqualsAndMask(0xfffc, 0x4004, 0x3).into());
            },
        }
    }

    /// Register 1 re-arms the sweep, registers 2 and 3 reload the period,
    /// and register 3 also restarts the duty sequence, the envelope and the
    /// length counter.
    fn write(&mut self, addr: u16, value: u8)
        ensures
            final(self).written_from(*old(self), addr, value),
            final(self).spec_regs() == old(self).spec_regs().update(addr as int, value),
            final(self).spec_channel() == old(self).spec_channel(),
            final(self).spec_enabled() == old(self).spec_enabled(),
            addr >= 2 ==> final(self).spec_period() == final(self).spec_timer_load(),
            addr < 2 ==> final(self).spec_period() == old(self).spec_period(),
            addr == 3 ==> final(self).spec_length_counter() == final(self).spec_length_load(),
            addr != 3 ==> final(self).spec_length_counter() == old(self).spec_length_counter(),
            old(self).wf() ==> final(self).wf(),
            old(self).can_tick() ==> final(self).can_tick(),
            final(self).spec_forced_clock() == old(self).spec_forced_clock(),
            final(self).ticks() == old(self).ticks(),
    {
        self.regs[addr as usize] = value;
        if addr == 1 {
            self.sweep_reload = true;
        } else if addr == 2 {
            self.period = self.timer_load();
        } else if addr == 3 {
            self.period = self.timer_load();
            self.sequencer = 0;
            self.length_counter = self.length_load();
            self.envelope_start = true;
        }
    }

    fn tick(&mut self, state: ApuSnapshot) -> (r: u8)
        ensures
            (*final(self), r) == old(self).tick_post(state),
            final(self).wf(),
            final(self).ticks() == old(self).ticks() + 1,
            final(self).spec_channel() == old(self).spec_channel(),
    {
        self.clock_timer();
        if state.is_quarter_frame || self.forced_clock {
            self.clock_envelope();
        }
        if state.is_half_frame || self.forced_clock {
            self.clock_half_frame();
        }

        self.forced_clock = false;
        if !self.duty() || self.length_counter == 0 || self.timer_counter < 8 {
            0
        } else {
            self.sweep_output()
        }
    }

    fn enable(&mut self)
        ensures
            *final(self) == old(self).switched(true),
            final(self).spec_enabled(),
            final(self).spec_length_counter() == old(self).spec_length_counter(),
            final(self).spec_regs() == old(self).spec_regs(),
            old(self).can_tick() ==> final(self).can_tick(),
            final(self).ticks() == old(self).ticks(),
            old(self).wf() ==> final(self).wf(),
            final(self).spec_channel() == old(self).spec_channel(),
    {
        self.enabled = true;
    }

    /// Disabling silences the channel at once by clearing its length counter.
    fn disable(&mut self)
        ensures
            *final(self) == old(self).switched(false),
            !final(self).spec_enabled(),
            final(self).spec_length_counter() == 0,
            final(self).spec_regs() == old(self).spec_regs(),
            old(self).can_tick() ==> final(self).can_tick(),
            final(self).ticks() == old(self).ticks(),
            old(self).wf() ==> final(self).wf(),
            final(self).spec_channel() == old(self).spec_channel(),
    {
        self.enabled = false;
        self.length_counter = 0;
    }

    fn get_state(&self) -> (r: bool)
        ensures
            r == (self.spec_length_counter() > 0),
    {
        self.length_counter > 0
    }
}

/// The sweep unit's target: with the negate bit (bit 3 of register 1)
/// clear it adds the period shifted right by the shift count, so the
/// period grows and the pitch falls; with it set the target never rises
/// above the period: pulse two subtracts the change when it is nonzero and
/// below the period, pulse one (ones' complement) subtracts one less
/// whenever the change is nonzero.
pub proof fn lemma_sweep_direction(c: Pulse)
    requires
        c.wf(),
    ensures
        !c.spec_negate() ==> c.spec_sweep_target() == c.spec_period() + (c.spec_period() >> (c.spec_shift() as u16)),
        c.spec_negate() ==> c.spec_sweep_target() <= c.spec_period(),
        c.spec_negate() && c.spec_channel() == PulseChannel::InternalTwo && 0 < (c.spec_period() >> (
        c.spec_shift() as u16)) < c.spec_period() ==> c.spec_sweep_target() == c.spec_period() - (
        c.spec_period() >> (c.spec_shift() as u16)),
        c.spec_negate() && c.spec_channel() == PulseChannel::InternalOne && 0 < (c.spec_period() >> (
        c.spec_shift() as u16)) ==> c.spec_sweep_target() == c.spec_period() - (c.spec_period() >> (
        c.spec_shift() as u16)) + 1,
{
    lemma_shr_div(c.period, c.spec_shift());
}

} // verus!

verus! {

/// A silent pulse stays silent: with the length counter at zero a cycle
/// outputs 0 and leaves the counter at zero (only a length load while
/// enabled restarts it).
pub proof fn lemma_silent_pulse(c: Pulse, state: ApuSnapshot)
    requires
        c.spec_length_counter() == 0,
    ensures
        c.tick_post(state).1 == 0,
        c.tick_post(state).0.spec_length_counter() == 0,
{
}

/// A silent pulse stays silent under any run of calls in which register 3
/// is written only while the channel is off: the length counter stays 0
/// (so `get_state` reports it idle) and every cycle outputs 0. Register
/// writes, enables, disables and forced clocks never restart it; only a
/// length load while enabled does.
pub proof fn lemma_silent_pulse_calls(ps: Seq<Pulse>, calls: Seq<ChannelCall>)
    requires
        ps.len() == calls.len() + 1,
        ps[0].spec_length_counter() == 0,
        forall|i: int| 0 <= i < calls.len() ==> #[trigger] ps[i].called(calls[i], ps[i + 1]),
        forall|i: int|
            0 <= i < calls.len() ==> (#[trigger] calls[i] matches ChannelCall::Write(a, _) && a == 3
                ==> !ps[i].spec_enabled()),
    ensures
        forall|i: int| 0 <= i < ps.len() ==> #[trigger] ps[i].spec_length_counter() == 0,
        forall|i: int|
            0 <= i < calls.len() ==> (#[trigger] calls[i] matches ChannelCall::Tick(state) ==> ps[i].tick_post(
                state,
            ).1 == 0),
{
    assert forall|i: int| 0 <= i < ps.len() implies #[trigger] ps[i].spec_length_counter() == 0 by {
        lemma_silent_pulse_prefix(ps, calls, i);
    }
    assert forall|i: int| 0 <= i < calls.len() implies (#[trigger] calls[i] matches ChannelCall::Tick(state)
        ==> ps[i].tick_post(state).1 == 0) by {
        lemma_silent_pulse_prefix(ps, calls, i);
        if let ChannelCall::Tick(state) = calls[i] {
            lemma_silent_pulse(ps[i], state);
        }
    }
}

proof fn lemma_silent_pulse_prefix(ps: Seq<Pulse>, calls: Seq<ChannelCall>, k: int)
    requires
        ps.len() == calls.len() + 1,
        ps[0].spec_length_counter() == 0,
        forall|i: int| 0 <= i < calls.len() ==> #[trigger] ps[i].called(calls[i], ps[i + 1]),
        forall|i: int|
            0 <= i < calls.len() ==> (#[trigger] calls[i] matches ChannelCall::Write(a, _) && a == 3
                ==> !ps[i].spec_enabled()),
        0 <= k < ps.len(),
    ensures
        ps[k].spec_length_counter() == 0,
    decreases k,
{
    if k > 0 {
        lemma_silent_pulse_prefix(ps, calls, k - 1);
        let j = k - 1;
        let p = ps[j];
        let c = calls[j];
        assert(ps[j].called(calls[j], ps[j + 1]));
        assert(j + 1 == k);
        if let ChannelCall::Tick(state) = c {
            lemma_silent_pulse(p, state);
        }
    }
}

/// A run of cycles over the given frame-sequencer snapshots: the pulse at
/// the end and the level output by each cycle.
pub open spec fn pulse_run(p: Pulse, states: Seq<ApuSnapshot>) -> (Pulse, Seq<u8>)
    decreases states.len(),
{
    if states.len() == 0 {
        (p, Seq::empty())
    } else {
        let (q, o) = p.tick_post(states[0]);
        let (r, os) = pulse_run(q, states.drop_first());
        (r, seq![o] + os)
    }
}

/// A silent pulse stays silent over any run of cycles: every level output
/// is 0 and the length counter is still 0 at the end.
pub proof fn lemma_silent_pulse_run(p: Pulse, states: Seq<ApuSnapshot>)
    requires
        p.spec_length_counter() == 0,
    ensures
        pulse_run(p, states).0.spec_length_counter() == 0,
        pulse_run(p, states).1.len() == states.len(),
        forall|i: int| 0 <= i < states.len() ==> #[trigger] pulse_run(p, states).1[i] == 0,
    decreases states.len(),
{
    if states.len() > 0 {
        lemma_silent_pulse(p, states[0]);
        let q = p.tick_post(states[0]).0;
        lemma_silent_pulse_run(q, states.drop_first());
        let os = pulse_run(q, states.drop_first()).1;
        assert forall|i: int| 0 <= i < states.len() implies #[trigger] pulse_run(p, states).1[i] == 0 by {
            if i > 0 {
                assert(pulse_run(p, states).1[i] == os[i - 1]);
            }
        }
    }
}

/// A well-formed pulse outputs a 4-bit level.
pub proof fn lemma_pulse_level(c: Pulse, state: ApuSnapshot)
    requires
        c.wf(),
    ensures
        c.tick_post(state).1 < 16,
{
}

/// The channel can run another cycle while its cycle count is below the
/// top of its 64-bit range.
pub proof fn lemma_pulse_can_tick(c: &Pulse)
    ensures
        c.can_tick() == (c.wf() && c.ticks() < u64::MAX),
{
}


/// Turning the channel on or off ($4015) sets its enable flag, clears the
/// length counter when off, and leaves the registers, the cycle count and
/// the tick result as they were otherwise.
pub proof fn lemma_switched(c: Pulse, on: bool)
    ensures
        c.switched(on).spec_enabled() == on,
        c.switched(on).spec_length_counter() == if on { c.spec_length_counter() } else { 0 },
        c.switched(on).spec_regs() == c.spec_regs(),
        c.switched(on).ticks() == c.ticks(),
        c.wf() ==> c.switched(on).wf(),
{
}

/// What one cycle does, read off the channel it leaves: it outputs 0
/// while the duty step is low, the length counter is 0 or the timer is
/// below 8, and the sweep-gated envelope level otherwise; the length
/// counter counts down on a half-frame (or forced) clock unless halted;
/// the forced clock is consumed; the registers, enable bit and channel
/// stay, and the cycle count advances.
pub proof fn lemma_pulse_tick(c: Pulse, state: ApuSnapshot)
    ensures
        ({
            let (n, out) = c.tick_post(state);
            &&& out == if !n.spec_duty() || n.spec_length_counter() == 0 || n.spec_timer_counter() < 8 {
                0u8
            } else {
                n.spec_sweep_output()
            }
            &&& n.spec_length_counter() == if (state.is_half_frame || c.spec_forced_clock())
                && c.spec_length_counter() != 0 && !c.spec_halt() {
                (c.spec_length_counter() - 1) as u8
            } else {
                c.spec_length_counter()
            }
            &&& !n.spec_forced_clock()
            &&& n.spec_regs() == c.spec_regs()
            &&& n.spec_enabled() == c.spec_enabled()
            &&& n.spec_channel() == c.spec_channel()
            &&& c.ticks() < u64::MAX ==> n.ticks() == c.ticks() + 1
        }),
{
}

} // verus!
