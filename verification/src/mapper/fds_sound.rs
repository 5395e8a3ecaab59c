//! The Famicom Disk System's sound: a 64-step wavetable channel whose
//! pitch a second, modulation wavetable bends, each with a gain envelope.
//! The phase accumulators wrap at 32 bits.
use vstd::prelude::*;

use crate::bits::lemma_u16;

verus! {

/// An FDS gain envelope: every `8 * (speed + 1) * multiplier` cycles the
/// gain steps up (to 32) or down (to 0).
#[derive(Debug, Clone, Copy)]
pub struct Envelope {
    speed: u8,
    multiplier: u8,
    gain: u8,
    increase: bool,
    enabled: bool,
    counter: u64,
}

impl Envelope {
    pub closed spec fn wf(&self) -> bool {
        &&& self.speed < 64
        &&& self.gain < 64
        &&& self.counter <= 130560
    }

    pub closed spec fn spec_gain(&self) -> u8 {
        self.gain
    }

    /// Speed, multiplier, direction and enable.
    pub closed spec fn settings(&self) -> (u8, u8, bool, bool) {
        (self.speed, self.multiplier, self.increase, self.enabled)
    }

    pub closed spec fn spec_counter(&self) -> u64 {
        self.counter
    }

    pub closed spec fn period(&self) -> int {
        8 * (self.speed as int + 1) * self.multiplier as int
    }

    pub closed spec fn ticked(self) -> Envelope {
        if !self.enabled || self.multiplier == 0 {
            self
        } else if self.counter >= self.period() {
            let gain = if self.increase && self.gain < 32 {
                (self.gain + 1) as u8
            } else if !self.increase && self.gain > 0 {
                (self.gain - 1) as u8
            } else {
                self.gain
            };
            Envelope { counter: 0, gain, ..self }
        } else {
            Envelope { counter: (self.counter + 1) as u64, ..self }
        }
    }

    /// Bits 0-5 set the speed (and, with bit 7, the gain directly); bit 6
    /// the direction.
    pub closed spec fn ctl_written(self, value: u8) -> Envelope {
        Envelope {
            counter: 0,
            speed: value % 64,
            gain: if value >= 0x80 { value % 64 } else { self.gain },
            increase: value & 0x40 != 0,
            ..self
        }
    }

    /// Bit 6 of the frequency high byte disables the envelopes.
    pub closed spec fn freq_hi_written(self, value: u8) -> Envelope {
        Envelope { counter: 0, enabled: value & 0x40 == 0, ..self }
    }

    pub closed spec fn with_multiplier(self, value: u8) -> Envelope {
        Envelope { multiplier: value, ..self }
    }

    fn new() -> (r: Envelope)
        ensures
            r.wf(),
            r.spec_gain() == 0,
            r.settings() == (0u8, 0u8, false, false),
            r.spec_counter() == 0,
    {
        Envelope { speed: 0, multiplier: 0, gain: 0, increase: false, enabled: false, counter: 0 }
    }

    fn period_exec(&self) -> (r: u64)
        requires
            self.wf(),
        ensures
            r == self.period(),
            r <= 130560,
    {
        let s = self.speed as u64 + 1;
        let m = self.multiplier as u64;
        proof {
            assert(8 * s * m <= 130560) by (nonlinear_arith)
                requires
                    s <= 64,
                    m <= 255,
            ;
        }
        8 * s * m
    }

    fn tick(&mut self)
        requires
            old(self).wf(),
        ensures
            final(self).wf(),
            *final(self) == old(self).ticked(),
    {
        if !self.enabled || self.multiplier == 0 {
            return;
        }
        if self.counter >= self.period_exec() {
            self.counter = 0;
            if self.increase && self.gain < 32 {
                self.gain = self.gain + 1;
            } else if !self.increase && self.gain > 0 {
                self.gain = self.gain - 1;
            }
        } else {
            self.counter = self.counter + 1;
        }
    }

    fn write_freq_hi(&mut self, value: u8)
        requires
            old(self).wf(),
        ensures
            final(self).wf(),
            *final(self) == old(self).freq_hi_written(value),
    {
        self.counter = 0;
        self.enabled = value & 0x40 == 0;
    }

    fn write_ctl(&mut self, value: u8)
        requires
            old(self).wf(),
        ensures
            final(self).wf(),
            *final(self) == old(self).ctl_written(value),
    {
        proof {
            crate::bits::lemma_u8(value);
        }
        self.counter = 0;
        self.speed = value & 0x3f;
        if value & 0x80 != 0 {
            self.gain = self.speed;
        }
        self.increase = value & 0x40 != 0;
    }

    fn set_multiplier(&mut self, value: u8)
        requires
            old(self).wf(),
        ensures
            final(self).wf(),
            *final(self) == old(self).with_multiplier(value),
    {
        self.multiplier = value;
    }

    fn gain(&self) -> (r: u8)
        ensures
            r == self.spec_gain(),
    {
        self.gain
    }
}

/// The master volume: full, two thirds, one half or two fifths.
#[derive(Debug, Copy, Clone, PartialEq, Eq, Structural)]
pub enum Volume {
    Full,
    TwoThirds,
    OneHalf,
    TwoFifths,
}

pub open spec fn volume_applied(v: Volume, volume: i16) -> i16 {
    match v {
        Volume::Full => volume,
        Volume::TwoThirds => (volume * 2 / 3) as i16,
        Volume::OneHalf => (volume / 2) as i16,
        Volume::TwoFifths => (volume * 2 / 5) as i16,
    }
}

impl Volume {
    fn apply(&self, volume: i16) -> (r: i16)
        requires
            0 <= volume,
        ensures
            r == volume_applied(*self, volume),
    {
        match self {
            Volume::Full => volume,
            Volume::TwoThirds => ((volume as i32 * 2) / 3) as i16,
            Volume::OneHalf => volume / 2,
            Volume::TwoFifths => ((volume as i32 * 2) / 5) as i16,
        }
    }
}

/// The modulation table's step as a change of the modulation counter
/// ($4 resets the counter).
pub open spec fn mod_step(value: u8) -> i8 {
    if value == 0 {
        0
    } else if value == 1 {
        1
    } else if value == 2 {
        2
    } else if value == 3 {
        4
    } else if value == 4 {
        0
    } else if value == 5 {
        -4i8
    } else if value == 6 {
        -2i8
    } else {
        -1i8
    }
}

/// The step as the register $4095 reports it.
pub open spec fn mod_step_reported(value: u8) -> u8 {
    if value == 0 {
        0
    } else if value == 1 {
        1
    } else if value == 2 {
        2
    } else if value == 3 {
        4
    } else if value == 4 || value == 5 {
        0xc
    } else if value == 6 {
        0xe
    } else {
        0xf
    }
}

/// The wavetable's phase increment: the frequency scaled by the
/// modulation (gain times half the counter, rounded, offset by 64 in
/// sixteenths), kept to 20 bits.
pub open spec fn wave_pitch(mod_gain: u8, mod_counter: i8, freq: u16) -> u32 {
    let t0 = modulation(mod_gain, mod_counter);
    let t1 = if t0 & 0x0f != 0 && t0 & 0x800 == 0 { (t0 + 0x20) as u32 } else { t0 };
    let t2 = (t1.wrapping_add(0x400) >> 4u32) % 256;
    ((t2 * freq as u32) % 0x100000) as u32
}

/// Half the counter, rounded toward zero.
pub open spec fn half_toward_zero(x: i8) -> int {
    if x >= 0 { x / 2 } else { -((-x) / 2) }
}

/// The modulator's gain times half its counter, as a 32-bit pattern.
pub open spec fn modulation(mod_gain: u8, mod_counter: i8) -> u32 {
    (mod_gain as i16 * half_toward_zero(mod_counter) as i16) as u32
}

#[derive(Debug, Clone)]
pub struct Sound {
    wavetable_ram: [u8; 64],
    wavetable_idx: usize,
    wavetable_hold: bool,
    wavetable_freq: u16,
    wavetable_timer: u16,
    wavetable_accumulator: u32,
    wavetable_gain: u8,
    wavetable_enable: bool,
    volume_envelope: Envelope,
    mod_envelope: Envelope,
    mod_table: [u8; 32],
    mod_timer: u8,
    mod_counter: i8,
    mod_freq: u16,
    mod_halt: bool,
    mod_carry: bool,
    mod_accumulator: u32,
    master_volume: Volume,
}

impl Sound {
    pub closed spec fn wf(&self) -> bool {
        &&& self.wavetable_idx < 64
        &&& forall|i: int| 0 <= i < 64 ==> #[trigger] self.wavetable_ram@[i] < 64
        &&& self.wavetable_gain <= 32
        &&& self.wavetable_timer <= 16
        &&& self.mod_timer <= 16
        &&& self.volume_envelope.wf()
        &&& self.mod_envelope.wf()
    }

    pub closed spec fn wave_ram(&self) -> Seq<u8> {
        self.wavetable_ram@
    }

    pub closed spec fn mod_table(&self) -> Seq<u8> {
        self.mod_table@
    }

    /// Position, hold, frequency, timer, accumulator, gain and enable of
    /// the wavetable channel.
    pub closed spec fn wave(&self) -> (usize, bool, u16, u16, u32, u8, bool) {
        (
            self.wavetable_idx,
            self.wavetable_hold,
            self.wavetable_freq,
            self.wavetable_timer,
            self.wavetable_accumulator,
            self.wavetable_gain,
            self.wavetable_enable,
        )
    }

    /// Timer, counter, frequency, halt, carry and accumulator of the
    /// modulator.
    pub closed spec fn modulator(&self) -> (u8, i8, u16, bool, bool, u32) {
        (
            self.mod_timer,
            self.mod_counter,
            self.mod_freq,
            self.mod_halt,
            self.mod_carry,
            self.mod_accumulator,
        )
    }

    pub closed spec fn envelopes(&self) -> (Envelope, Envelope) {
        (self.volume_envelope, self.mod_envelope)
    }

    pub closed spec fn master_volume(&self) -> Volume {
        self.master_volume
    }

    /// The modulation table entry the accumulator points at.
    pub closed spec fn mod_value(&self) -> u8 {
        self.mod_table@[((self.mod_accumulator >> 13u32) % 32) as int] % 8
    }

    /// One CPU cycle: the envelopes step; every 16th cycle the modulator
    /// advances its accumulator and, on crossing bit 12, moves its counter
    /// by the table; every 16th cycle of an enabled wavetable its phase
    /// advances by the pitch; at position 0 the output gain latches the
    /// volume envelope (at most 32).
    pub closed spec fn ticked(self) -> Sound {
        self.envelopes_ticked().modulator_ticked().wavetable_ticked().gain_latched()
    }

    pub closed spec fn envelopes_ticked(self) -> Sound {
        Sound {
            volume_envelope: self.volume_envelope.ticked(),
            mod_envelope: self.mod_envelope.ticked(),
            ..self
        }
    }

    pub closed spec fn modulator_ticked(self) -> Sound {
        if self.mod_timer >= 16 {
            let acc = self.mod_accumulator.wrapping_add(self.mod_freq as u32);
            let s1 = Sound { mod_timer: 0, mod_accumulator: acc, ..self };
            if acc & 0x1000 != self.mod_accumulator & 0x1000 {
                let v = s1.mod_value();
                let base: i8 = if v == 4 { 0 } else { s1.mod_counter };
                Sound { mod_counter: base.wrapping_add((mod_step(v) * 4) as i8), ..s1 }
            } else {
                s1
            }
        } else if !self.mod_halt {
            Sound { mod_timer: (self.mod_timer + 1) as u8, ..self }
        } else {
            self
        }
    }

    pub closed spec fn wavetable_ticked(self) -> Sound {
        if self.wavetable_timer >= 16 {
            let acc = self.wavetable_accumulator.wrapping_add(
                wave_pitch(self.mod_envelope.spec_gain(), self.mod_counter, self.wavetable_freq),
            );
            Sound {
                wavetable_timer: 0,
                wavetable_accumulator: acc,
                wavetable_idx: ((acc >> 18u32) % 64) as usize,
                ..self
            }
        } else if self.wavetable_enable {
            Sound { wavetable_timer: (self.wavetable_timer + 1) as u16, ..self }
        } else {
            self
        }
    }

    pub closed spec fn gain_latched(self) -> Sound {
        if self.wavetable_idx == 0 {
            let g = self.volume_envelope.spec_gain();
            Sound { wavetable_gain: if g < 32 { g } else { 32 }, ..self }
        } else {
            self
        }
    }

    /// What a read of `addr` ($4040-$4097) returns.
    pub closed spec fn spec_read(&self, addr: u16) -> u8 {
        if 0x4040 <= addr < 0x4080 {
            if self.wavetable_hold {
                self.wavetable_ram@[(addr as int) % 64]
            } else {
                self.wavetable_ram@[self.wavetable_idx as int % 64]
            }
        } else if addr == 0x4090 {
            self.volume_envelope.spec_gain() | 0x40
        } else if addr == 0x4091 {
            (self.wavetable_accumulator >> 12u32) as u8
        } else if addr == 0x4092 {
            self.mod_envelope.spec_gain() | 0x40
        } else if addr == 0x4093 {
            ((self.mod_accumulator >> 4u32) & 0x7f) as u8
        } else if addr == 0x4094 {
            (modulation(self.mod_envelope.spec_gain(), self.mod_counter) >> 4u32) as u8
        } else if addr == 0x4095 {
            mod_step_reported(self.mod_value())
        } else if addr == 0x4096 {
            self.wavetable_ram@[self.wavetable_idx as int % 64] | 0x40
        } else if addr == 0x4097 {
            (self.mod_counter as u8) >> 1u8
        } else {
            0
        }
    }

    /// The chip after a write of `value` to `addr`, apart from its two
    /// tables (given by `written_from`).
    pub closed spec fn write_post(self, addr: u16, value: u8) -> Sound {
        if addr == 0x4080 {
            Sound { volume_envelope: self.volume_envelope.ctl_written(value), ..self }
        } else if addr == 0x4082 {
            Sound { wavetable_freq: ((self.wavetable_freq & 0xff00) | value as u16) as u16, ..self }
        } else if addr == 0x4083 {
            let enable = value & 0x80 == 0;
            let s = Sound {
                wavetable_freq: ((self.wavetable_freq & 0x00ff) | ((value as u16) << 8u16)) as u16,
                volume_envelope: self.volume_envelope.freq_hi_written(value),
                mod_envelope: self.mod_envelope.freq_hi_written(value),
                wavetable_enable: enable,
                ..self
            };
            if !enable {
                Sound { wavetable_accumulator: 0, wavetable_timer: 0, wavetable_idx: 0, ..s }
            } else {
                s
            }
        } else if addr == 0x4084 {
            Sound {
                volume_envelope: self.volume_envelope.ctl_written(value),
                wavetable_gain: if value & 0x80 != 0 && value % 64 == 0 {
                    0
                } else {
                    self.wavetable_gain
                },
                ..self
            }
        } else if addr == 0x4085 {
            Sound { mod_counter: (value << 1u8) as i8, ..self }
        } else if addr == 0x4086 {
            Sound { mod_freq: ((self.mod_freq & 0xff00) | value as u16) as u16, ..self }
        } else if addr == 0x4087 {
            let halt = value & 0x80 != 0;
            Sound {
                mod_freq: ((self.mod_freq & 0x00ff) | ((value as u16) << 8u16)) as u16,
                mod_carry: value & 0x40 != 0,
                mod_halt: halt,
                mod_accumulator: if halt { self.mod_accumulator & 0xff000 } else { self.mod_accumulator },
                mod_timer: if halt { 0 } else { self.mod_timer },
                ..self
            }
        } else if addr == 0x4088 && self.mod_halt {
            Sound { mod_accumulator: self.mod_accumulator.wrapping_add(0x2000), ..self }
        } else if addr == 0x4089 {
            let m = value % 4;
            Sound {
                master_volume: if m == 0 {
                    Volume::Full
                } else if m == 1 {
                    Volume::TwoThirds
                } else if m == 2 {
                    Volume::OneHalf
                } else {
                    Volume::TwoFifths
                },
                wavetable_hold: value & 0x80 != 0,
                ..self
            }
        } else if addr == 0x408a {
            Sound {
                volume_envelope: self.volume_envelope.with_multiplier(value),
                mod_envelope: self.mod_envelope.with_multiplier(value),
                ..self
            }
        } else {
            self
        }
    }

    /// A write: held wavetable RAM takes the low six bits at $4040-$407F;
    /// a halted modulator's table takes three bits at $4088; the rest as
    /// `write_post`.
    pub closed spec fn written_from(&self, old: &Sound, addr: u16, value: u8) -> bool {
        &&& *self == Sound {
            wavetable_ram: self.wavetable_ram,
            mod_table: self.mod_table,
            ..old.write_post(addr, value)
        }
        &&& self.wavetable_ram@ == if 0x4040 <= addr < 0x4080 && old.wavetable_hold {
            old.wavetable_ram@.update((addr as int) % 64, value % 64)
        } else {
            old.wavetable_ram@
        }
        &&& self.mod_table@ == if addr == 0x4088 && old.mod_halt {
            old.mod_table@.update(((old.mod_accumulator >> 13u32) % 32) as int, value % 8)
        } else {
            old.mod_table@
        }
    }

    /// The output: the wavetable sample times the latched gain, scaled by
    /// eight and the master volume.
    pub closed spec fn spec_output(&self) -> i16 {
        volume_applied(
            self.master_volume,
            (self.wavetable_ram@[self.wavetable_idx as int] * self.wavetable_gain * 8) as i16,
        )
    }

    pub fn new() -> (r: Sound)
        ensures
            r.wf(),
            r.wave_ram() == Seq::new(64, |i: int| 0u8),
            r.mod_table() == Seq::new(32, |i: int| 0u8),
            r.master_volume() == Volume::Full,
    {
        let r = Sound {
            wavetable_ram: [0; 64],
            wavetable_idx: 0,
            wavetable_hold: false,
            wavetable_freq: 0,
            wavetable_timer: 0,
            wavetable_accumulator: 0,
            wavetable_gain: 0,
            wavetable_enable: false,
            volume_envelope: Envelope::new(),
            mod_envelope: Envelope::new(),
            mod_table: [0; 32],
            mod_timer: 0,
            mod_counter: 0,
            mod_freq: 0,
            mod_halt: false,
            mod_carry: false,
            mod_accumulator: 0,
            master_volume: Volume::Full,
        };
        assert(r.wavetable_ram@ =~= Seq::new(64, |i: int| 0u8));
        assert(r.mod_table@ =~= Seq::new(32, |i: int| 0u8));
        r
    }

    fn mod_value_exec(&self) -> (r: u8)
        ensures
            r == self.mod_value(),
            r < 8,
    {
        let a = ((self.mod_accumulator >> 13) % 32) as usize;
        self.mod_table[a] % 8
    }

    fn modulation(&self) -> (r: u32)
        requires
            self.wf(),
        ensures
            r == modulation(self.mod_envelope.spec_gain(), self.mod_counter),
    {
        let g = self.mod_envelope.gain() as i16;
        let m = self.mod_counter as i16;
        let c: i16 = if m >= 0 {
            m / 2
        } else {
            -((-m) / 2)
        };
        proof {
            assert(-4096 <= g * c <= 4096) by (nonlinear_arith)
                requires
                    0 <= g < 64,
                    -64 <= c <= 64,
            ;
        }
        (g * c) as u32
    }

    fn wave_pitch(&self) -> (r: u32)
        requires
            self.wf(),
        ensures
            r == wave_pitch(self.mod_envelope.spec_gain(), self.mod_counter, self.wavetable_freq),
    {
        let mut temp = self.modulation();
        if temp & 0x0f != 0 && temp & 0x800 == 0 {
            proof {
                assert(temp & 0x800 == 0 ==> temp + 0x20 <= u32::MAX) by (bit_vector);
            }
            temp = temp + 0x20;
        }
        temp = temp.wrapping_add(0x400);
        temp = (temp >> 4) % 256;
        let f = self.wavetable_freq as u32;
        proof {
            assert(temp * f <= 255 * 65535) by (nonlinear_arith)
                requires
                    temp < 256,
                    f <= 65535,
            ;
        }
        (temp * f) % 0x100000
    }

    /// Reads a register; reading changes nothing.
    pub fn read(&mut self, addr: u16) -> (r: u8)
        requires
            old(self).wf(),
        ensures
            r == old(self).spec_read(addr),
            *final(self) == *old(self),
    {
        if 0x4040 <= addr && addr < 0x4080 {
            if self.wavetable_hold {
                self.wavetable_ram[(addr % 64) as usize]
            } else {
                self.wavetable_ram[self.wavetable_idx % 64]
            }
        } else if addr == 0x4090 {
            self.volume_envelope.gain() | 0x40
        } else if addr == 0x4091 {
            (self.wavetable_accumulator >> 12) as u8
        } else if addr == 0x4092 {
            self.mod_envelope.gain() | 0x40
        } else if addr == 0x4093 {
            ((self.mod_accumulator >> 4) & 0x7f) as u8
        } else if addr == 0x4094 {
            (self.modulation() >> 4) as u8
        } else if addr == 0x4095 {
            let v = self.mod_value_exec();
            if v == 0 {
                0
            } else if v == 1 {
                1
            } else if v == 2 {
                2
            } else if v == 3 {
                4
            } else if v == 4 || v == 5 {
                0xc
            } else if v == 6 {
                0xe
            } else {
                0xf
            }
        } else if addr == 0x4096 {
            self.wavetable_ram[self.wavetable_idx % 64] | 0x40
        } else if addr == 0x4097 {
            (self.mod_counter as u8) >> 1
        } else {
            0
        }
    }

    pub fn write(&mut self, addr: u16, value: u8)
        requires
            old(self).wf(),
        ensures
            final(self).wf(),
            final(self).written_from(&*old(self), addr, value),
    {
        if 0x4040 <= addr && addr < 0x4080 && self.wavetable_hold {
            self.wavetable_ram[(addr % 64) as usize] = value % 64;
        } else if addr == 0x4080 {
            self.volume_envelope.write_ctl(value);
        } else if addr == 0x4082 {
            self.wavetable_freq = (self.wavetable_freq & 0xff00) | value as u16;
        } else if addr == 0x4083 {
            self.wavetable_freq = (self.wavetable_freq & 0x00ff) | ((value as u16) << 8);
            self.volume_envelope.write_freq_hi(value);
            self.mod_envelope.write_freq_hi(value);
            self.wavetable_enable = value & 0x80 == 0;
            if !self.wavetable_enable {
                self.wavetable_accumulator = 0;
                self.wavetable_timer = 0;
                self.wavetable_idx = 0;
            }
        } else if addr == 0x4084 {
            self.volume_envelope.write_ctl(value);
            if value & 0x80 != 0 && value % 64 == 0 {
                self.wavetable_gain = 0;
            }
        } else if addr == 0x4085 {
            self.mod_counter = (value << 1) as i8;
        } else if addr == 0x4086 {
            self.mod_freq = (self.mod_freq & 0xff00) | value as u16;
        } else if addr == 0x4087 {
            self.mod_freq = (self.mod_freq & 0x00ff) | ((value as u16) << 8);
            self.mod_carry = value & 0x40 != 0;
            self.mod_halt = value & 0x80 != 0;
            if self.mod_halt {
                self.mod_accumulator = self.mod_accumulator & 0xff000;
                self.mod_timer = 0;
            }
        } else if addr == 0x4088 && self.mod_halt {
            let a = ((self.mod_accumulator >> 13) % 32) as usize;
            self.mod_table[a] = value % 8;
            self.mod_accumulator = self.mod_accumulator.wrapping_add(0x2000);
        } else if addr == 0x4089 {
            let m = value % 4;
            self.master_volume = if m == 0 {
                Volume::Full
            } else if m == 1 {
                Volume::TwoThirds
            } else if m == 2 {
                Volume::OneHalf
            } else {
                Volume::TwoFifths
            };
            self.wavetable_hold = value & 0x80 != 0;
        } else if addr == 0x408a {
            self.volume_envelope.set_multiplier(value);
            self.mod_envelope.set_multiplier(value);
        }
    }

    pub fn tick(&mut self)
        requires
            old(self).wf(),
        ensures
            final(self).wf(),
            *final(self) == old(self).ticked(),
    {
        self.volume_envelope.tick();
        self.mod_envelope.tick();
        self.tick_modulator();
        self.tick_wavetable();
        if self.wavetable_idx == 0 {
            let g = self.volume_envelope.gain();
            self.wavetable_gain = if g < 32 {
                g
            } else {
                32
            };
        }
    }

    fn tick_modulator(&mut self)
        requires
            old(self).wf(),
        ensures
            final(self).wf(),
            *final(self) == old(self).modulator_ticked(),
    {
        if self.mod_timer >= 16 {
            self.mod_timer = 0;
            let old_acc = self.mod_accumulator;
            self.mod_accumulator = self.mod_accumulator.wrapping_add(self.mod_freq as u32);
            if self.mod_accumulator & 0x1000 != old_acc & 0x1000 {
                let v = self.mod_value_exec();
                let inc: i8 = if v == 0 {
                    0
                } else if v == 1 {
                    1
                } else if v == 2 {
                    2
                } else if v == 3 {
                    4
                } else if v == 4 {
                    self.mod_counter = 0;
                    0
                } else if v == 5 {
                    -4
                } else if v == 6 {
                    -2
                } else {
                    -1
                };
                self.mod_counter = self.mod_counter.wrapping_add(inc * 4);
            }
        } else if !self.mod_halt {
            self.mod_timer = self.mod_timer + 1;
        }
    }

    fn tick_wavetable(&mut self)
        requires
            old(self).wf(),
        ensures
            final(self).wf(),
            *final(self) == old(self).wavetable_ticked(),
    {
        if self.wavetable_timer >= 16 {
            self.wavetable_timer = 0;
            let pitch = self.wave_pitch();
            self.wavetable_accumulator = self.wavetable_accumulator.wrapping_add(pitch);
            self.wavetable_idx = ((self.wavetable_accumulator >> 18) % 64) as usize;
        } else if self.wavetable_enable {
            self.wavetable_timer = self.wavetable_timer + 1;
        }
    }

    pub fn output(&self) -> (r: i16)
        requires
            self.wf(),
        ensures
            r == self.spec_output(),
    {
        let wave = self.wavetable_ram[self.wavetable_idx] as i16;
        let gain = self.wavetable_gain as i16;
        proof {
            assert(0 <= wave * gain * 8 <= 16128) by (nonlinear_arith)
                requires
                    0 <= wave < 64,
                    0 <= gain <= 32,
            ;
        }
        let volume = wave * gain * 8;
        self.master_volume.apply(volume)
    }
}

} // verus!
