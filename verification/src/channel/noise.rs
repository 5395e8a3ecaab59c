//! Noise channel: a 15-bit linear feedback shift register clocked at one of
//! sixteen rates, with the same envelope and length counter as the pulses.
use vstd::prelude::*;

use crate::apu::{length_load_value, ApuSnapshot, LENGTH_TABLE};
use crate::bits::{lemma_u16, lemma_u8};
use crate::bus::{AddressBus, AndEqualsAndMask, DeviceKind, MappingFn};
use crate::channel::Channel;
use crate::region::{lemma_rates_positive, Region};

verus! {

/// One shift of the LFSR: feedback from bit 0 xor bit 1 (bit 6 in short
/// mode) enters at bit 14.
pub open spec fn shifted(shifter: u16, short_mode: bool) -> u16 {
    let feedback = if short_mode { shifter ^ (shifter >> 6) } else { shifter ^ (shifter >> 1) };
    (shifter >> 1) | ((feedback & 1) << 14)
}

pub struct Noise {
    region: Region,
    timer_counter: u16,
    length_counter: u8,
    enabled: bool,
    shifter: u16,
    envelope_start: bool,
    envelope_divider: u8,
    decay_counter: u8,
    regs: [u8; 4],
    pending_length_load: Option<u8>,
    halt_delay: bool,
    halt: bool,
    current_tick: u64,
    forced_clock: bool,
}

impl Noise {
    /// The channel after $4015 turns it on (`on`) or off: off also clears
    /// the length counter; nothing else changes.
    pub closed spec fn switched(self, on: bool) -> Self {
        if on {
            Self { enabled: true, ..self }
        } else {
            Self { enabled: false, length_counter: 0, ..self }
        }
    }

    /// CPU cycles the channel has run.
    pub closed spec fn ticks(&self) -> u64 {
        self.current_tick
    }

    pub closed spec fn spec_region(&self) -> Region {
        self.region
    }

    pub closed spec fn spec_regs(&self) -> Seq<u8> {
        self.regs@
    }

    pub closed spec fn spec_shifter(&self) -> u16 {
        self.shifter
    }

    pub closed spec fn spec_length_counter(&self) -> u8 {
        self.length_counter
    }

    pub closed spec fn spec_pending_length(&self) -> Option<u8> {
        self.pending_length_load
    }

    pub closed spec fn spec_enabled(&self) -> bool {
        self.enabled
    }

    pub closed spec fn spec_forced_clock(&self) -> bool {
        self.forced_clock
    }

    pub closed spec fn spec_length_load(&self) -> u8 {
        if !self.enabled { 0 } else { LENGTH_TABLE@[(self.regs@[3] / 8) as int] }
    }

    pub open spec fn spec_volume(&self) -> u8 {
        self.spec_regs()[0] % 16
    }

    pub open spec fn spec_constant_volume(&self) -> bool {
        (self.spec_regs()[0] / 16) % 2 == 1
    }

    pub closed spec fn spec_envelope_output(&self) -> u8 {
        if self.spec_constant_volume() { self.spec_volume() } else { self.decay_counter }
    }

    pub open spec fn spec_short_mode(&self) -> bool {
        self.spec_regs()[2] >= 0x80
    }

    /// The timer reload: the selected rate minus one.
    pub closed spec fn spec_timer_period(&self) -> u16 {
        (self.region.spec_noise_rates()[(self.regs@[2] % 16) as int] - 1) as u16
    }

    closed spec fn envelope_post(self) -> Noise {
        if self.envelope_start {
            Noise { envelope_start: false, decay_counter: 0xf, envelope_divider: self.spec_volume(), ..self }
        } else if self.envelope_divider == 0 {
            let decay = if self.decay_counter == 0 {
                if self.halt { 0xfu8 } else { 0u8 }
            } else {
                (self.decay_counter - 1) as u8
            };
            Noise { envelope_divider: self.spec_volume(), decay_counter: decay, ..self }
        } else {
            Noise { envelope_divider: (self.envelope_divider - 1) as u8, ..self }
        }
    }

    /// One APU cycle and the level it outputs. A length written this cycle
    /// lands after the clock unless the clock decremented the counter, and
    /// the halt flag written takes effect one cycle late.
    pub closed spec fn tick_post(self, state: ApuSnapshot) -> (Noise, u8) {
        let s0 = Noise { current_tick: (self.current_tick + 1) as u64, ..self };
        let s1 = if s0.timer_counter == 0 {
            Noise {
                timer_counter: s0.spec_timer_period(),
                shifter: shifted(s0.shifter, s0.spec_short_mode()),
                ..s0
            }
        } else {
            Noise { timer_counter: (s0.timer_counter - 1) as u16, ..s0 }
        };
        let s2 = if state.is_quarter_frame || self.forced_clock { s1.envelope_post() } else { s1 };
        let new_len = match s2.pending_length_load {
            Some(l) => l,
            None => s2.length_counter,
        };
        let len = if (state.is_half_frame || self.forced_clock) && s2.length_counter != 0 && !s2.halt {
            (s2.length_counter - 1) as u8
        } else {
            new_len
        };
        let s3 = Noise {
            pending_length_load: None,
            length_counter: len,
            halt: s2.halt_delay,
            forced_clock: false,
            ..s2
        };
        let out = if s3.shifter % 2 == 1 || s3.length_counter == 0 {
            0u8
        } else {
            s3.spec_envelope_output()
        };
        (s3, out)
    }

    /// The envelope's decay level stays within 4 bits.
    pub closed spec fn wf(&self) -> bool {
        self.decay_counter <= 0xf
    }

    pub fn new(region: Region) -> (r: Noise)
        ensures
            r.wf(),
            r.spec_region() == region,
            r.spec_shifter() == 1,
            r.spec_regs() == seq![0u8, 0, 0, 0],
            r.spec_length_counter() == 0,
            !r.spec_enabled(),
            r.can_tick(),
            r.ticks() == 0,
    {
        Noise {
            region,
            timer_counter: 0,
            length_counter: 0,
            enabled: false,
            shifter: 1,
            envelope_start: false,
            envelope_divider: 0,
            decay_counter: 0,
            regs: [0; 4],
            pending_length_load: None,
            halt_delay: false,
            halt: false,
            current_tick: 0,
            forced_clock: false,
        }
    }

    /// Makes the next cycle clock the envelope and length units.
    pub fn forced_clock(&mut self)
        ensures
            final(self).spec_forced_clock(),
            old(self).wf() ==> final(self).wf(),
            final(self).can_tick() == old(self).can_tick(),
            final(self).ticks() == old(self).ticks(),
    {
        self.forced_clock = true;
    }

    fn length_load(&self) -> (r: u8)
        ensures
            r == self.spec_length_load(),
    {
        if !self.enabled {
            0
        } else {
            let v = self.regs[3];
            proof { lemma_u8(v); }
            length_load_value(v >> 3 & 0x1f)
        }
    }

    fn envelope_volume(&self) -> (r: u8)
        ensures
            r == self.spec_volume(),
    {
        let v = self.regs[0];
        proof { lemma_u8(v); }
        v & 0xf
    }

    fn envelope_output(&self) -> (r: u8)
        ensures
            r == self.spec_envelope_output(),
    {
        if self.constant_volume() {
            self.envelope_volume()
        } else {
            self.decay_counter
        }
    }

    fn constant_volume(&self) -> (r: bool)
        ensures
            r == self.spec_constant_volume(),
    {
        let v = self.regs[0];
        proof { lemma_u8(v); }
        v & 0x10 != 0
    }

    fn halt(&self) -> (r: bool)
        ensures
            r == self.halt,
    {
        self.halt
    }

    fn noise_mode(&self) -> (r: bool)
        ensures
            r == self.spec_short_mode(),
    {
        let v = self.regs[2];
        proof { lemma_u8(v); }
        v & 0x80 != 0
    }

    fn clock_shifter(&mut self)
        ensures
            *final(self) == (Noise {
                shifter: shifted(old(self).shifter, old(self).spec_short_mode()),
                ..*old(self)
            }),
    {
        let feedback = if self.noise_mode() {
            self.shifter ^ (self.shifter >> 6)
        } else {
            self.shifter ^ (self.shifter >> 1)
        };

        self.shifter = (self.shifter >> 1) | ((feedback & 1) << 14);
    }

    fn timer_period(&self) -> (r: u16)
        ensures
            r == self.spec_timer_period(),
    {
        let rates = self.region.noise_rates();
        let v = self.regs[2];
        proof { lemma_u8(v); }
        let idx = (v & 0xf) as usize;
        proof {
            lemma_rates_positive(self.region, idx as int);
        }
        rates[idx] - 1
    }

    fn clock_envelope(&mut self)
        ensures
            *final(self) == old(self).envelope_post(),
    {
        if self.envelope_start {
            self.envelope_start = false;
            self.decay_counter = 0xf;
            self.envelope_divider = self.envelope_volume();
        } else if self.envelope_divider == 0 {
            self.envelope_divider = self.envelope_volume();
            if self.decay_counter == 0 {
                if self.halt() {
                    self.decay_counter = 0xf
                }
            } else {
                self.decay_counter -= 1;
            }
        } else {
            self.envelope_divider -= 1;
        }
    }
}

impl Channel for Noise {
    closed spec fn can_tick(&self) -> bool {
        self.current_tick < u64::MAX
    }

    fn register(&self, cpu: &mut AddressBus)
        ensures
            final(cpu).writes() == old(cpu).writes().push(
                (MappingFn::AndEqualsAndMask(AndEqualsAndMask(0xfffc, 0x400c, 0x3)), DeviceKind::Noise),
            ),
            final(cpu).reads() == old(cpu).reads(),
    {
        cpu.register_write(DeviceKind::Noise, AndEqualsAndMask(0xfffc, 0x400c, 0x3).into());
    }

    /// Register 0 schedules the halt flag, register 3 schedules a length
    /// load for the next cycle and restarts the envelope.
    fn write(&mut self, addr: u16, value: u8)
        ensures
            final(self).spec_regs() == old(self).spec_regs().update(addr as int, value),
            final(self).spec_enabled() == old(self).spec_enabled(),
            final(self).spec_length_counter() == old(self).spec_length_counter(),
            addr == 3 ==> final(self).spec_pending_length() == Some(final(self).spec_length_load()),
            addr != 3 ==> final(self).spec_pending_length() == old(self).spec_pending_length(),
            final(self).spec_shifter() == old(self).spec_shifter(),
            final(self).spec_region() == old(self).spec_region(),
            old(self).wf() ==> final(self).wf(),
            old(self).can_tick() ==> final(self).can_tick(),
            final(self).ticks() == old(self).ticks(),
    {
        self.regs[addr as usize] = value;
        if addr == 0 {
            proof { lemma_u8(value); }
            self.halt_delay = value & 0x20 != 0;
        } else if addr == 3 {
            self.pending_length_load = Some(self.length_load());
            self.envelope_start = true;
        }
    }

    fn tick(&mut self, state: ApuSnapshot) -> (r: u8)
        ensures
            (*final(self), r) == old(self).tick_post(state),
            final(self).ticks() == old(self).ticks() + 1,
            old(self).wf() ==> final(self).wf() && r < 16,
    {
        proof {
            lemma_noise_level(*self, state);
        }
        self.current_tick += 1;

        if self.timer_counter == 0 {
            self.timer_counter = self.timer_period();
            self.clock_shifter();
        } else {
            self.timer_counter -= 1;
        }

        if state.is_quarter_frame || self.forced_clock {
            self.clock_envelope();
        }

        let new_len = match self.pending_length_load.take() {
            Some(l) => l,
            None => self.length_counter,
        };

        if (state.is_half_frame || self.forced_clock) && self.length_counter != 0 && !self.halt() {
            self.length_counter -= 1;
        } else {
            self.length_counter = new_len;
        }

        self.halt = self.halt_delay;
        self.forced_clock = false;

        let sh = self.shifter;
        proof { lemma_u16(sh); }
        if (sh & 1) == 1 || self.length_counter == 0 {
            0
        } else {
            self.envelope_output()
        }
    }

    fn enable(&mut self)
        ensures
            *final(self) == old(self).switched(true),
            old(self).wf() ==> final(self).wf(),
            final(self).spec_enabled(),
            final(self).spec_length_counter() == old(self).spec_length_counter(),
            final(self).spec_regs() == old(self).spec_regs(),
            old(self).can_tick() ==> final(self).can_tick(),
            final(self).ticks() == old(self).ticks(),
    {
        self.enabled = true;
    }

    fn disable(&mut self)
        ensures
            *final(self) == old(self).switched(false),
            old(self).wf() ==> final(self).wf(),
            !final(self).spec_enabled(),
            final(self).spec_length_counter() == 0,
            final(self).spec_regs() == old(self).spec_regs(),
            old(self).can_tick() ==> final(self).can_tick(),
            final(self).ticks() == old(self).ticks(),
    {
        self.enabled = false;
        self.length_counter = 0;
    }

    fn get_state(&self) -> (r: bool)
        ensures
            r == (self.spec_length_counter() > 0),
    {
        self.length_counter > 0
    }
}

/// A cycle keeps the decay level within 4 bits and outputs a 4-bit level.
pub proof fn lemma_noise_level(c: Noise, state: ApuSnapshot)
    ensures
        c.wf() ==> c.tick_post(state).0.wf() && c.tick_post(state).1 < 16,
{
}

/// The shift register never leaves its 15 bits: bit 15 stays clear.
pub proof fn lemma_shifter_15_bits(shifter: u16, short_mode: bool)
    requires
        shifter < 0x8000,
    ensures
        shifted(shifter, short_mode) < 0x8000,
{
    let f1 = shifter ^ (shifter >> 6);
    let f2 = shifter ^ (shifter >> 1);
    assert(shifter < 0x8000 ==> (shifter >> 1) | ((f1 & 1) << 14) < 0x8000 && (shifter >> 1) | ((f2
        & 1) << 14) < 0x8000) by (bit_vector);
}

} // verus!

verus! {

/// The channel can run another cycle while its cycle count is below the
/// top of its 64-bit range.
pub proof fn lemma_noise_can_tick(c: &Noise)
    ensures
        c.can_tick() == (c.ticks() < u64::MAX),
{
}


/// Turning the channel on or off ($4015) sets its enable flag, clears the
/// length counter when off, and leaves the registers, the cycle count and
/// the tick result as they were otherwise.
pub proof fn lemma_switched(c: Noise, on: bool)
    ensures
        c.switched(on).spec_enabled() == on,
        c.switched(on).spec_length_counter() == if on { c.spec_length_counter() } else { 0 },
        c.switched(on).spec_regs() == c.spec_regs(),
        c.switched(on).ticks() == c.ticks(),
        c.wf() ==> c.switched(on).wf(),
{
}

/// What one cycle does, read off the channel it leaves: it outputs 0
/// while bit 0 of the shift register is set or the length counter is 0,
/// and the envelope level otherwise; the forced clock is consumed; the
/// registers stay, and the cycle count advances.
pub proof fn lemma_noise_tick(c: Noise, state: ApuSnapshot)
    ensures
        ({
            let (n, out) = c.tick_post(state);
            &&& out == if n.spec_shifter() % 2 == 1 || n.spec_length_counter() == 0 {
                0u8
            } else {
                n.spec_envelope_output()
            }
            &&& !n.spec_forced_clock()
            &&& n.spec_regs() == c.spec_regs()
            &&& c.ticks() < u64::MAX ==> n.ticks() == c.ticks() + 1
        }),
{
}

} // verus!
