//! Sunsoft FME-7 (iNES 69): a command/parameter register pair for eight
//! 1 KiB CHR banks, four 8 KiB PRG banks (the $6000 one RAM or ROM), a
//! 16-bit CPU-cycle IRQ counter, and the Sunsoft 5B expansion audio.
use vstd::prelude::*;

use crate::bits::{lemma_u16, lemma_u16_shift12, lemma_u8, lemma_u8_pair};
use crate::bus::{AddressBus, AndAndMask, AndEqualsAndMask, BusKind, DeviceKind, MappingFn};
use crate::cartridge::INes;
use crate::mapper::{MapperInput, banked, banked_index, Mapper, Mirroring, Nametable, SaveWram, SimpleMirroring};
use crate::memory::{lemma_bank_sizes, Memory, MemoryBlock};
use crate::ppu::PpuFetchKind;

verus! {

/// What an 8 KiB PRG window maps.
#[derive(Debug, Copy, Clone, PartialEq, Eq, Structural)]
pub enum PrgBank {
    Ram(u8),
    Rom(u8),
}

/// Largest entry of the volume table: three channels at full volume must
/// still fit a sample.
pub const MAX_LEVEL: i16 = 10922;

/// The 5B's logarithmic output levels: level `i` (from 2 up) is a third of
/// the full sample range times 10^((i - 31) / 10), rounded down; levels 0
/// and 1 are silent.
pub const SUNSOFT_LEVELS: [i16; 32] = [
    0, 0, 13, 17, 21, 27, 34, 43, 54, 68, 86, 109, 137, 173, 217, 274, 345, 434, 547, 689, 867,
    1092, 1375, 1731, 2179, 2743, 3453, 4348, 5474, 6891, 8675, 10922,
];

/// Every level is between silence and a third of the sample range.
pub proof fn lemma_levels_bounded()
    ensures
        SUNSOFT_LEVELS@.len() == 32,
        forall|i: int| 0 <= i < 32 ==> 0 <= #[trigger] SUNSOFT_LEVELS@[i] <= MAX_LEVEL,
{
    assert(SUNSOFT_LEVELS@ =~= seq![
        0i16, 0, 13, 17, 21, 27, 34, 43, 54, 68, 86, 109, 137, 173, 217, 274, 345, 434, 547, 689,
        867, 1092, 1375, 1731, 2179, 2743, 3453, 4348, 5474, 6891, 8675, 10922,
    ]);
}

/// Tone period of channel `c`: a 12-bit register pair, at least 1.
pub open spec fn tone_period(regs: Seq<u8>, c: int) -> int {
    let p = (regs[2 * c + 1] as int % 16) * 256 + regs[2 * c] as int;
    if p < 1 { 1 } else { p }
}

/// Noise period: bits 1-5 of register 6.
pub open spec fn noise_period(regs: Seq<u8>) -> u16 {
    (regs[6] as u16) & 0x3e
}

/// Envelope period: registers $B (low) and $C (high).
pub open spec fn envelope_period(regs: Seq<u8>) -> int {
    regs[0xc] as int * 256 + regs[0xb] as int
}

/// The mixer bit of register 7 that gates channel `c`'s tone (base 1) or
/// noise (base 8); a clear bit enables it.
pub open spec fn mixer_enabled(regs: Seq<u8>, base: u8, c: int) -> bool {
    regs[7] & (if c == 0 { base } else if c == 1 { (base * 2) as u8 } else { (base * 4) as u8 }) == 0
}

/// Fixed volume of channel `c`: 0, or twice the 4-bit level plus one.
pub open spec fn fixed_volume(regs: Seq<u8>, c: int) -> int {
    let v = regs[8 + c] as int % 16;
    if v == 0 { 0 } else { v * 2 + 1 }
}

/// The Sunsoft 5B: three square-wave tone channels, a noise generator and
/// a shared envelope, clocked every 16 CPU cycles.
pub struct Sunsoft5b {
    regs: [u8; 0x10],
    counter: u64,
    tone_counters: [u16; 3],
    noise_counter: u16,
    envelope_counter: u16,
    tone_state: [bool; 3],
    noise_seed: u32,
    envelope_volume: u8,
    envelope_ascending: bool,
    envelope_holding: bool,
    sample: i16,
}

/// The envelope after one period: at the end of its ramp it stops at zero
/// (no continue), holds (flipping the level when alternating), reverses,
/// or restarts; then a running envelope steps one level.
pub open spec fn envelope_step(shape: u8, volume: u8, ascending: bool, holding: bool) -> (u8, bool, bool) {
    let at_limit = (ascending && volume == 31) || (!ascending && volume == 0);
    let (v, asc, hold) = if !holding && at_limit {
        if shape & 0x08 == 0 {
            (0u8, ascending, true)
        } else if shape & 0x01 != 0 {
            (if shape & 0x02 != 0 { (31 - volume) as u8 } else { volume }, ascending, true)
        } else if shape & 0x02 != 0 {
            (volume, !ascending, false)
        } else {
            ((31 - volume) as u8, ascending, false)
        }
    } else {
        (volume, ascending, holding)
    };
    if !hold {
        (if asc { (v + 1) as u8 } else { (v - 1) as u8 }, asc, hold)
    } else {
        (v, asc, hold)
    }
}

impl Sunsoft5b {
    pub closed spec fn regs(&self) -> Seq<u8> {
        self.regs@
    }

    /// Envelope level, direction, and whether it holds.
    pub closed spec fn envelope(&self) -> (u8, bool, bool) {
        (self.envelope_volume, self.envelope_ascending, self.envelope_holding)
    }

    pub closed spec fn tone_state(&self) -> Seq<bool> {
        self.tone_state@
    }

    pub closed spec fn noise_seed(&self) -> u32 {
        self.noise_seed
    }

    pub closed spec fn counters(&self) -> (u64, Seq<u16>, u16, u16) {
        (self.counter, self.tone_counters@, self.noise_counter, self.envelope_counter)
    }

    pub closed spec fn sample(&self) -> i16 {
        self.sample
    }

    pub closed spec fn wf(&self) -> bool {
        &&& self.counter < 16
        &&& forall|i: int| 0 <= i < 3 ==> #[trigger] self.tone_counters@[i] <= 0xffe
        &&& self.noise_counter <= 0x3e
        &&& self.envelope_counter < 0xffff
        &&& self.envelope_volume <= 31
    }

    /// The output level of channel `c`: when its enabled tone and noise
    /// are both high, the envelope or its fixed volume.
    pub closed spec fn level(&self, c: int) -> int {
        let regs = self.regs@;
        let active = (!mixer_enabled(regs, 1, c) || self.tone_state@[c]) && (!mixer_enabled(
            regs,
            8,
            c,
        ) || self.noise_seed & 1 != 0);
        if active {
            if regs[8 + c] & 0x10 != 0 {
                self.envelope_volume as int
            } else {
                fixed_volume(regs, c)
            }
        } else {
            0
        }
    }

    /// One audio clock (every 16th CPU cycle): the noise shift register,
    /// the envelope and the three tone dividers advance, and the sample is
    /// the sum of the channels' levels through the volume table.
    pub closed spec fn clocked(self) -> Sunsoft5b {
        let regs = self.regs@;
        let nc = self.noise_counter + 1;
        let (noise_counter, noise_seed) = if nc >= noise_period(regs) {
            (
                0u16,
                (if self.noise_seed & 1 != 0 {
                    self.noise_seed ^ 0x24000
                } else {
                    self.noise_seed
                }) >> 1u32,
            )
        } else {
            (nc as u16, self.noise_seed)
        };
        let ec = self.envelope_counter + 1;
        let (envelope_counter, env) = if ec >= envelope_period(regs) {
            (
                0u16,
                envelope_step(
                    regs[0xd],
                    self.envelope_volume,
                    self.envelope_ascending,
                    self.envelope_holding,
                ),
            )
        } else {
            (ec as u16, (self.envelope_volume, self.envelope_ascending, self.envelope_holding))
        };
        let s = Sunsoft5b {
            counter: 0,
            noise_counter,
            noise_seed,
            envelope_counter,
            envelope_volume: env.0,
            envelope_ascending: env.1,
            envelope_holding: env.2,
            ..self
        };
        s
    }

    /// The tone dividers after one audio clock: each counts up and toggles
    /// its square wave when it reaches the period.
    pub closed spec fn tones_after(self, c: int) -> (u16, bool) {
        let t = self.tone_counters@[c] + 1;
        if t >= tone_period(self.regs@, c) {
            (0u16, !self.tone_state@[c])
        } else {
            (t as u16, self.tone_state@[c])
        }
    }

    /// One CPU cycle of the audio unit.
    pub closed spec fn ticked(&self, next: &Sunsoft5b) -> bool {
        if self.counter + 1 < 16 {
            *next == Sunsoft5b { counter: (self.counter + 1) as u64, ..*self }
        } else {
            let s = self.clocked();
            &&& *next == Sunsoft5b {
                tone_counters: next.tone_counters,
                tone_state: next.tone_state,
                sample: next.sample,
                ..s
            }
            &&& forall|c: int|
                0 <= c < 3 ==> (next.tone_counters@[c], next.tone_state@[c]) == s.tones_after(c)
            &&& next.sample == SUNSOFT_LEVELS@[next.level(0)] + SUNSOFT_LEVELS@[next.level(1)]
                + SUNSOFT_LEVELS@[next.level(2)]
        }
    }

    fn new() -> (r: Sunsoft5b)
        ensures
            r.wf(),
            r.regs() == Seq::new(16, |i: int| 0u8),
            r.envelope() == (7u8, true, true),
            r.noise_seed() == 0xffff,
            r.sample() == 0,
    {
        let r = Sunsoft5b {
            regs: [0; 0x10],
            counter: 0,
            tone_counters: [0; 3],
            noise_counter: 0,
            envelope_counter: 0,
            tone_state: [false; 3],
            noise_seed: 0xffff,
            envelope_volume: 7,
            envelope_ascending: true,
            envelope_holding: true,
            sample: 0,
        };
        assert(r.regs@ =~= Seq::new(16, |i: int| 0u8));
        r
    }

    /// Writes audio register `reg`; writing the envelope shape ($D)
    /// restarts the envelope at the end its attack bit chooses.
    fn write(&mut self, reg: u8, value: u8)
        requires
            old(self).wf(),
            reg < 16,
        ensures
            final(self).wf(),
            final(self).regs() == old(self).regs().update(reg as int, value),
            reg != 0xd ==> *final(self) == (Sunsoft5b { regs: final(self).regs, ..*old(self) }),
            reg == 0xd ==> *final(self) == (Sunsoft5b {
                regs: final(self).regs,
                envelope_counter: 0,
                envelope_volume: if value & 0x04 != 0 { 0 } else { 31 },
                envelope_ascending: value & 0x04 != 0,
                envelope_holding: false,
                ..*old(self)
            }),
    {
        self.regs[reg as usize] = value;
        if reg == 0x0d {
            self.envelope_counter = 0;
            if self.regs[0xd] & 0x04 != 0 {
                self.envelope_volume = 0;
                self.envelope_ascending = true;
            } else {
                self.envelope_volume = 31;
                self.envelope_ascending = false;
            }
            self.envelope_holding = false;
        }
    }

    fn tone_period(&self, c: usize) -> (r: u16)
        requires
            c < 3,
        ensures
            r == tone_period(self.regs@, c as int),
    {
        let low = self.regs[2 * c] as u16;
        let high = (self.regs[2 * c + 1] % 16) as u16;
        let period = high * 256 + low;
        if period < 1 {
            1
        } else {
            period
        }
    }

    fn channel_value(&self, c: usize) -> (r: u8)
        requires
            c < 3,
            self.envelope_volume <= 31,
        ensures
            r == self.level(c as int),
            r <= 31,
    {
        let mix = self.regs[7];
        let (tone_bit, noise_bit): (u8, u8) = if c == 0 {
            (1, 8)
        } else if c == 1 {
            (2, 16)
        } else {
            (4, 32)
        };
        let tone_on = mix & tone_bit == 0;
        let noise_on = mix & noise_bit == 0;
        let active = (!tone_on || self.tone_state[c]) && (!noise_on || self.noise_seed & 1 != 0);
        if active {
            let env = self.regs[8 + c];
            if env & 0x10 != 0 {
                self.envelope_volume
            } else {
                let v = env % 16;
                if v == 0 {
                    0
                } else {
                    v * 2 + 1
                }
            }
        } else {
            0
        }
    }

    fn step_envelope(&mut self)
        requires
            old(self).envelope_volume <= 31,
        ensures
            (final(self).envelope_volume, final(self).envelope_ascending, final(self).envelope_holding)
                == envelope_step(
                old(self).regs@[0xd],
                old(self).envelope_volume,
                old(self).envelope_ascending,
                old(self).envelope_holding,
            ),
            final(self).envelope_volume <= 31,
            *final(self) == (Sunsoft5b {
                envelope_volume: final(self).envelope_volume,
                envelope_ascending: final(self).envelope_ascending,
                envelope_holding: final(self).envelope_holding,
                ..*old(self)
            }),
    {
        let shape = self.regs[0xd];
        proof {
            lemma_u8(self.envelope_volume);
        }
        let at_limit = (self.envelope_ascending && self.envelope_volume == 31) || (
        !self.envelope_ascending && self.envelope_volume == 0);
        if !self.envelope_holding && at_limit {
            if shape & 0x08 == 0 {
                self.envelope_holding = true;
                self.envelope_volume = 0;
            } else if shape & 0x01 != 0 {
                self.envelope_holding = true;
                if shape & 0x02 != 0 {
                    self.envelope_volume = self.envelope_volume ^ 0x1f;
                }
            } else if shape & 0x02 != 0 {
                self.envelope_ascending = !self.envelope_ascending;
            } else {
                self.envelope_volume = self.envelope_volume ^ 0x1f;
            }
        }
        if !self.envelope_holding {
            if self.envelope_ascending {
                self.envelope_volume = self.envelope_volume + 1;
            } else {
                self.envelope_volume = self.envelope_volume - 1;
            }
        }
    }

    fn tick(&mut self)
        requires
            old(self).wf(),
        ensures
            final(self).wf(),
            old(self).ticked(&*final(self)),
    {
        if self.counter + 1 < 16 {
            self.counter = self.counter + 1;
            return;
        }
        self.counter = 0;
        let nc = self.noise_counter + 1;
        proof {
            lemma_u8(self.regs[6]);
        }
        if nc >= (self.regs[6] as u16) & 0x3e {
            self.noise_counter = 0;
            if self.noise_seed & 1 != 0 {
                self.noise_seed = self.noise_seed ^ 0x24000;
            }
            self.noise_seed = self.noise_seed >> 1;
        } else {
            self.noise_counter = nc;
        }
        let ec = self.envelope_counter + 1;
        proof {
            lemma_u8_pair(self.regs[0xb], self.regs[0xc]);
        }
        let envelope_period = ((self.regs[0xc] as u16) << 8) | (self.regs[0xb] as u16);
        if ec >= envelope_period {
            self.envelope_counter = 0;
            self.step_envelope();
        } else {
            self.envelope_counter = ec;
        }
        let ghost s = *self;
        proof {
            lemma_levels_bounded();
        }
        let mut sample: i16 = 0;
        let mut c: usize = 0;
        while c < 3
            invariant
                c <= 3,
                self.wf(),
                s.wf(),
                *self == (Sunsoft5b {
                    tone_counters: self.tone_counters,
                    tone_state: self.tone_state,
                    ..s
                }),
                forall|i: int|
                    0 <= i < c ==> (self.tone_counters@[i], self.tone_state@[i]) == s.tones_after(i),
                forall|i: int|
                    c <= i < 3 ==> self.tone_counters@[i] == s.tone_counters@[i]
                        && self.tone_state@[i] == s.tone_state@[i],
                sample == (if c > 0 { SUNSOFT_LEVELS@[self.level(0)] as int } else { 0 }) + (if c
                    > 1 { SUNSOFT_LEVELS@[self.level(1)] as int } else { 0 }) + (if c > 2 {
                    SUNSOFT_LEVELS@[self.level(2)] as int
                } else {
                    0
                }),
                0 <= sample <= c * MAX_LEVEL,
            decreases 3 - c,
        {
            let t = self.tone_counters[c] + 1;
            if t >= self.tone_period(c) {
                self.tone_counters[c] = 0;
                self.tone_state[c] = !self.tone_state[c];
            } else {
                self.tone_counters[c] = t;
            }
            let v = self.channel_value(c);
            sample = sample + SUNSOFT_LEVELS[v as usize];
            c = c + 1;
        }
        self.sample = sample;
    }
}

pub struct Fme7 {
    cartridge: INes,
    prg_ram: MemoryBlock,
    prg_banks: [PrgBank; 5],
    chr_ram: Option<MemoryBlock>,
    chr_banks: [u8; 8],
    command: u8,
    irq_enable: bool,
    irq_counter_enable: bool,
    irq_counter: u16,
    irq: bool,
    ram_protect: bool,
    ram_enable: bool,
    mirroring: SimpleMirroring,
    audio_enabled: bool,
    audio_protect: bool,
    audio_reg_select: u8,
    audio: Sunsoft5b,
}

/// The mirroring a command $C parameter selects.
pub open spec fn fme7_mirroring(parameter: u8) -> Mirroring {
    let m = parameter % 4;
    if m == 0 {
        Mirroring::Vertical
    } else if m == 1 {
        Mirroring::Horizontal
    } else if m == 2 {
        Mirroring::Single(Nametable::InternalB)
    } else {
        Mirroring::Single(Nametable::InternalA)
    }
}

/// The addresses the board decodes above $8000 once the bus has masked
/// them with $E000.
pub open spec fn fme7_register(addr: u16) -> bool {
    addr == 0x8000 || addr == 0xa000 || addr == 0xc000 || addr == 0xe000
}

impl Fme7 {
    pub closed spec fn prg(&self) -> Seq<u8> {
        self.cartridge.prg_rom@
    }

    pub closed spec fn chr(&self) -> Seq<u8> {
        match self.chr_ram {
            Some(r) => r@,
            None => self.cartridge.chr_rom@,
        }
    }

    pub closed spec fn has_chr_ram(&self) -> bool {
        self.chr_ram is Some
    }

    pub closed spec fn ram(&self) -> Seq<u8> {
        self.prg_ram@
    }

    pub closed spec fn prg_banks(&self) -> Seq<PrgBank> {
        self.prg_banks@
    }

    pub closed spec fn chr_banks(&self) -> Seq<u8> {
        self.chr_banks@
    }

    pub closed spec fn command(&self) -> u8 {
        self.command
    }

    /// IRQ enable, counter enable, counter, and the IRQ line.
    pub closed spec fn irq_state(&self) -> (bool, bool, u16, bool) {
        (self.irq_enable, self.irq_counter_enable, self.irq_counter, self.irq)
    }

    /// RAM enable and write protection.
    pub closed spec fn ram_control(&self) -> (bool, bool) {
        (self.ram_enable, self.ram_protect)
    }

    pub closed spec fn mirroring(&self) -> Mirroring {
        self.mirroring.mirroring
    }

    /// Audio enabled, register writes protected, selected register.
    pub closed spec fn audio_port(&self) -> (bool, bool, u8) {
        (self.audio_enabled, self.audio_protect, self.audio_reg_select)
    }

    pub closed spec fn audio(&self) -> Sunsoft5b {
        self.audio
    }

    pub closed spec fn battery(&self) -> bool {
        self.cartridge.battery
    }

    /// The board after a command with `parameter`.
    pub closed spec fn commanded(self, parameter: u8) -> Fme7 {
        let n = self.command;
        if n <= 7 {
            self
        } else if n == 8 {
            Fme7 { ram_protect: parameter & 0x80 == 0, ram_enable: parameter & 0x40 != 0, ..self }
        } else if n <= 0xb {
            self
        } else if n == 0xc {
            Fme7 { mirroring: SimpleMirroring { mirroring: fme7_mirroring(parameter) }, ..self }
        } else if n == 0xd {
            Fme7 {
                irq_enable: parameter & 1 != 0,
                irq_counter_enable: parameter & 0x80 != 0,
                irq: false,
                ..self
            }
        } else if n == 0xe {
            Fme7 { irq_counter: (self.irq_counter & 0xff00) | parameter as u16, ..self }
        } else {
            Fme7 { irq_counter: (self.irq_counter & 0x00ff) | ((parameter as u16) << 8u16), ..self }
        }
    }

    /// A command: the bank arrays as given here, the rest as `commanded`.
    pub closed spec fn commanded_from(&self, old: &Fme7, parameter: u8) -> bool {
        let n = old.command;
        &&& *self == Fme7 {
            chr_banks: self.chr_banks,
            prg_banks: self.prg_banks,
            ..old.commanded(parameter)
        }
        &&& self.chr_banks@ == if n <= 7 {
            old.chr_banks@.update(n as int, parameter)
        } else {
            old.chr_banks@
        }
        &&& self.prg_banks@ == if n == 8 {
            old.prg_banks@.update(
                0,
                if parameter & 0x40 != 0 {
                    PrgBank::Ram(parameter & 0x3f)
                } else {
                    PrgBank::Rom(parameter & 0x3f)
                },
            )
        } else if 9 <= n <= 0xb {
            old.prg_banks@.update(n - 8, PrgBank::Rom(parameter & 0x3f))
        } else {
            old.prg_banks@
        }
    }

    /// A CPU write to the RAM window or one of the four registers.
    pub closed spec fn written_from(&self, old: &Fme7, addr: u16, value: u8) -> bool {
        if addr & 0xe000 == 0x6000 {
            &&& *self == Fme7 { prg_ram: self.prg_ram, ..*old }
            &&& self.prg_ram@ == match old.prg_banks@[0] {
                PrgBank::Ram(bank) => if old.ram_enable && !old.ram_protect {
                    old.prg_ram@.update(banked_index(old.prg_ram@, bank as usize, 0x2000, addr), value)
                } else {
                    old.prg_ram@
                },
                PrgBank::Rom(_) => old.prg_ram@,
            }
        } else if addr == 0x8000 {
            *self == Fme7 { command: value & 0xf, ..*old }
        } else if addr == 0xa000 {
            self.commanded_from(old, value)
        } else if addr == 0xc000 {
            *self == Fme7 { audio_protect: value & 0xf0 != 0, audio_reg_select: value & 0xf, ..*old }
        } else if old.audio_protect {
            *self == *old
        } else {
            &&& *self == Fme7 { audio: self.audio, audio_enabled: true, ..*old }
            &&& self.audio.regs@ == old.audio.regs@.update(old.audio_reg_select as int, value)
        }
    }

    /// A PPU write lands in CHR RAM through the bank of its 1 KiB window.
    pub closed spec fn ppu_written_from(&self, old: &Fme7, addr: u16, value: u8) -> bool {
        &&& *self == Fme7 { chr_ram: self.chr_ram, ..*old }
        &&& self.has_chr_ram() == old.has_chr_ram()
        &&& self.chr() == match old.chr_ram {
            Some(r) => r@.update(
                banked_index(r@, old.chr_banks@[((addr as int) / 0x400) % 8] as usize, 0x400, addr),
                value,
            ),
            None => old.chr(),
        }
    }

    /// One CPU cycle: the IRQ counter counts down (raising the IRQ when it
    /// wraps past zero, if enabled) and enabled audio advances.
    pub closed spec fn ticked(&self, next: &Fme7) -> bool {
        let (counter, irq) = if self.irq_counter_enable {
            let c = if self.irq_counter == 0 { 0xffffu16 } else { (self.irq_counter - 1) as u16 };
            (c, self.irq || (c == 0xffff && self.irq_enable))
        } else {
            (self.irq_counter, self.irq)
        };
        &&& *next == Fme7 { irq_counter: counter, irq, audio: next.audio, ..*self }
        &&& if self.audio_enabled {
            self.audio.ticked(&next.audio)
        } else {
            next.audio == self.audio
        }
    }

    /// The board as it comes up at power-on from this image.
    pub open spec fn powered_on(&self, cartridge: INes) -> bool {
        &&& self.prg() == cartridge.prg_rom@
        &&& self.has_chr_ram() == (cartridge.chr_ram_bytes > 0)
        &&& self.has_chr_ram() ==> self.chr() == Seq::new(8 * 1024, |i: int| 0u8)
        &&& !self.has_chr_ram() ==> self.chr() == cartridge.chr_rom@
        &&& self.ram().len() == if cartridge.prg_ram_bytes > 8 * 1024 {
                (cartridge.prg_ram_bytes / 1024 * 1024) as int
            } else {
                8192int
            }
        &&& forall|i: int|
                0 <= i < self.ram().len() ==> #[trigger] self.ram()[i] == match cartridge.wram {
                    Some(w) => if i < w@.len() { w@[i] } else { 0u8 },
                    None => 0u8,
                }
        &&& self.prg_banks() == seq![
                PrgBank::Ram(0),
                PrgBank::Rom(0),
                PrgBank::Rom(0),
                PrgBank::Rom(0),
                PrgBank::Rom(((cartridge.prg_rom@.len() / 0x2000) - 1) as u8),
            ]
        &&& self.chr_banks() == Seq::new(8, |i: int| 0u8)
        &&& self.command() == 0
        &&& self.irq_state() == (false, false, 0u16, false)
        &&& self.ram_control() == (false, false)
        &&& self.audio_port() == (false, false, 0u8)
        &&& self.mirroring() == cartridge.mirroring.spec_into()
        &&& self.audio().regs() == Seq::new(16, |i: int| 0u8)
        &&& self.battery() == cartridge.battery
        &&& (cartridge.chr_ram_bytes > 0 || cartridge.chr_rom@.len() > 0) ==> self.wf()
    }

    /// PRG RAM is the larger of 8 KiB and the header's size, loaded from
    /// the save; CHR RAM when the header asks for it; the last PRG window
    /// holds the last bank.
    pub fn new(cartridge: INes) -> (r: Fme7)
        requires
            cartridge.prg_rom@.len() >= 0x2000,
        ensures
            r.powered_on(cartridge),
            r.prg() == cartridge.prg_rom@,
            r.has_chr_ram() == (cartridge.chr_ram_bytes > 0),
            r.has_chr_ram() ==> r.chr() == Seq::new(8 * 1024, |i: int| 0u8),
            !r.has_chr_ram() ==> r.chr() == cartridge.chr_rom@,
            r.ram().len() == if cartridge.prg_ram_bytes > 8 * 1024 {
                (cartridge.prg_ram_bytes / 1024 * 1024) as int
            } else {
                8192int
            },
            forall|i: int|
                0 <= i < r.ram().len() ==> #[trigger] r.ram()[i] == match cartridge.wram {
                    Some(w) => if i < w@.len() { w@[i] } else { 0u8 },
                    None => 0u8,
                },
            r.prg_banks() == seq![
                PrgBank::Ram(0),
                PrgBank::Rom(0),
                PrgBank::Rom(0),
                PrgBank::Rom(0),
                PrgBank::Rom(((cartridge.prg_rom@.len() / 0x2000) - 1) as u8),
            ],
            r.chr_banks() == Seq::new(8, |i: int| 0u8),
            r.command() == 0,
            r.irq_state() == (false, false, 0u16, false),
            r.ram_control() == (false, false),
            r.audio_port() == (false, false, 0u8),
            r.mirroring() == cartridge.mirroring.spec_into(),
            r.audio().regs() == Seq::new(16, |i: int| 0u8),
            r.battery() == cartridge.battery,
            (cartridge.chr_ram_bytes > 0 || cartridge.chr_rom@.len() > 0) ==> r.wf(),
    {
        let mut cartridge = cartridge;
        let fixed_bank = ((cartridge.prg_rom.len() / 0x2000) - 1) as u8;
        let prg_banks = [
            PrgBank::Ram(0),
            PrgBank::Rom(0),
            PrgBank::Rom(0),
            PrgBank::Rom(0),
            PrgBank::Rom(fixed_bank),
        ];
        let prg_ram_size = if cartridge.prg_ram_bytes > 8 * 1024 {
            cartridge.prg_ram_bytes
        } else {
            8 * 1024
        };
        let mut prg_ram = MemoryBlock::new(prg_ram_size / 1024);
        if let Some(wram) = cartridge.wram.take() {
            prg_ram.restore_wram(wram);
        }
        let chr_ram = if cartridge.chr_ram_bytes > 0 {
            Some(MemoryBlock::new(8))
        } else {
            None
        };
        let mirroring = SimpleMirroring::new(cartridge.mirroring.into());
        let mut mapper = Fme7 {
            cartridge,
            prg_ram,
            prg_banks,
            chr_ram,
            chr_banks: [0; 8],
            command: 0,
            irq_enable: false,
            irq_counter_enable: false,
            irq_counter: 0,
            irq: false,
            ram_protect: false,
            ram_enable: false,
            mirroring,
            audio_enabled: false,
            audio_protect: false,
            audio_reg_select: 0,
            audio: Sunsoft5b::new(),
        };
        mapper.run_command(0);
        assert(mapper.prg_banks@ =~= seq![
            PrgBank::Ram(0),
            PrgBank::Rom(0),
            PrgBank::Rom(0),
            PrgBank::Rom(0),
            PrgBank::Rom(fixed_bank),
        ]);
        assert(mapper.chr_banks@ =~= Seq::new(8, |i: int| 0u8));
        mapper
    }

    fn run_command(&mut self, parameter: u8)
        requires
            old(self).command < 16,
        ensures
            final(self).commanded_from(&*old(self), parameter),
    {
        if self.command <= 0xb {
            self.bank_command(parameter);
        } else {
            self.control_command(parameter);
        }
    }

    fn bank_command(&mut self, parameter: u8)
        requires
            old(self).command <= 0xb,
        ensures
            final(self).commanded_from(&*old(self), parameter),
    {
        let n = self.command;
        if n <= 7 {
            self.chr_banks[n as usize] = parameter;
        } else if n == 8 {
            self.ram_protect = parameter & 0x80 == 0;
            self.ram_enable = parameter & 0x40 != 0;
            let bank = parameter & 0x3f;
            if self.ram_enable {
                self.prg_banks[0] = PrgBank::Ram(bank);
            } else {
                self.prg_banks[0] = PrgBank::Rom(bank);
            }
        } else {
            self.prg_banks[(n - 8) as usize] = PrgBank::Rom(parameter & 0x3f);
        }
    }

    fn control_command(&mut self, parameter: u8)
        requires
            0xc <= old(self).command < 16,
        ensures
            final(self).commanded_from(&*old(self), parameter),
    {
        let n = self.command;
        if n == 0xc {
            proof {
                lemma_u8(parameter);
            }
            let m = parameter & 0x3;
            if m == 0 {
                self.mirroring.vertical();
            } else if m == 1 {
                self.mirroring.horizontal();
            } else if m == 2 {
                self.mirroring.internal_b();
            } else {
                self.mirroring.internal_a();
            }
        } else if n == 0xd {
            self.irq_enable = parameter & 1 != 0;
            self.irq_counter_enable = parameter & 0x80 != 0;
            self.irq = false;
        } else if n == 0xe {
            self.irq_counter = (self.irq_counter & 0xff00) | parameter as u16;
        } else {
            self.irq_counter = (self.irq_counter & 0x00ff) | ((parameter as u16) << 8);
        }
    }

    fn read_cpu(&self, addr: u16) -> (r: u8)
        requires
            self.wf(),
            addr >= 0x6000,
        ensures
            r == self.spec_peek(BusKind::Cpu, addr),
    {
        proof {
            lemma_bank_sizes();
            lemma_u16_shift12(addr);
        }
        let bank_idx = (addr >> 13) - 3;
        match self.prg_banks[bank_idx as usize] {
            PrgBank::Ram(bank) => self.prg_ram.read_mapped(bank as usize, 8 * 1024, addr),
            PrgBank::Rom(bank) => self.cartridge.prg_rom.read_mapped(bank as usize, 8 * 1024, addr),
        }
    }

    fn write_cpu(&mut self, addr: u16, value: u8)
        requires
            old(self).wf(),
            addr & 0xe000 == 0x6000 || fme7_register(addr),
        ensures
            final(self).wf(),
            final(self).written_from(&*old(self), addr, value),
    {
        proof {
            lemma_bank_sizes();
        }
        if addr & 0xe000 == 0x6000 {
            if self.ram_enable && !self.ram_protect {
                if let PrgBank::Ram(bank) = self.prg_banks[0] {
                    self.prg_ram.write_mapped(bank as usize, 8 * 1024, addr, value);
                }
            }
        } else if addr == 0x8000 {
            self.command = value & 0xf;
            proof {
                lemma_u8(value);
            }
        } else if addr == 0xa000 {
            self.run_command(value);
        } else if addr == 0xc000 {
            self.audio_protect = value & 0xf0 != 0;
            self.audio_reg_select = value & 0xf;
            proof {
                lemma_u8(value);
            }
        } else if !self.audio_protect {
            self.audio_enabled = true;
            self.audio.write(self.audio_reg_select, value);
        }
    }
}

impl Mapper for Fme7 {
    closed spec fn wf(&self) -> bool {
        &&& self.prg().len() > 0
        &&& self.chr().len() > 0
        &&& self.prg_ram@.len() > 0
        &&& self.command < 16
        &&& self.audio_reg_select < 16
        &&& self.audio.wf()
    }

    /// The CPU side decodes $6000 and up.
    open spec fn readable(&self, bus: BusKind, addr: u16) -> bool {
        bus is Cpu ==> addr >= 0x6000
    }

    open spec fn writable(&self, bus: BusKind, addr: u16) -> bool {
        bus is Cpu ==> (addr & 0xe000 == 0x6000 || fme7_register(addr))
    }

    closed spec fn accepts(&self, input: MapperInput) -> bool {
        true
    }

    open spec fn fetchable(&self, address: u16) -> bool {
        true
    }

    open spec fn spec_peek(&self, bus: BusKind, addr: u16) -> u8 {
        match bus {
            BusKind::Cpu => match self.prg_banks()[(addr as int) / 0x2000 - 3] {
                PrgBank::Ram(bank) => banked(self.ram(), bank as usize, 0x2000, addr),
                PrgBank::Rom(bank) => banked(self.prg(), bank as usize, 0x2000, addr),
            },
            BusKind::Ppu => banked(
                self.chr(),
                self.chr_banks()[((addr as int) / 0x400) % 8] as usize,
                0x400,
                addr,
            ),
        }
    }

    closed spec fn spec_nametable(&self, address: u16) -> Nametable {
        self.mirroring.mirroring.spec_ppu_fetch(address)
    }

    fn register(&self, cpu: &mut AddressBus)
        ensures
            final(cpu).reads() == old(cpu).reads().push(
                (MappingFn::AndEqualsAndMask(AndEqualsAndMask(0xe000, 0x6000, 0x7fff)), DeviceKind::Mapper),
            ).push((MappingFn::AndAndMask(AndAndMask(0x8000, 0xffff)), DeviceKind::Mapper)),
            final(cpu).writes() == old(cpu).writes().push(
                (MappingFn::AndEqualsAndMask(AndEqualsAndMask(0xe000, 0x6000, 0x7fff)), DeviceKind::Mapper),
            ).push((MappingFn::AndAndMask(AndAndMask(0x8000, 0xe000)), DeviceKind::Mapper)),
    {
        cpu.register_read(DeviceKind::Mapper, AndEqualsAndMask(0xe000, 0x6000, 0x7fff).into());
        cpu.register_write(DeviceKind::Mapper, AndEqualsAndMask(0xe000, 0x6000, 0x7fff).into());
        cpu.register_read(DeviceKind::Mapper, AndAndMask(0x8000, 0xffff).into());
        cpu.register_write(DeviceKind::Mapper, AndAndMask(0x8000, 0xe000).into());
    }

    fn peek(&self, bus: BusKind, addr: u16) -> (r: u8) {
        match bus {
            BusKind::Cpu => self.read_cpu(addr),
            BusKind::Ppu => {
                proof {
                    lemma_bank_sizes();
                    lemma_u16(addr);
                }
                let bank_idx = (addr >> 10) & 7;
                let bank = self.chr_banks[bank_idx as usize] as usize;
                match &self.chr_ram {
                    Some(ram) => ram.read_mapped(bank, 1024, addr),
                    None => self.cartridge.chr_rom.read_mapped(bank, 1024, addr),
                }
            },
        }
    }

    /// $8000 selects the command, $A000 runs it, $C000 selects the audio
    /// register and $E000 writes it; $6000-$7FFF is enabled, unprotected
    /// PRG RAM. PPU writes go to CHR RAM.
    fn write(&mut self, bus: BusKind, addr: u16, value: u8)
        ensures
            old(self).wrote(&*final(self), bus, addr, value),
            bus is Cpu ==> final(self).written_from(&*old(self), addr, value),
            bus is Ppu ==> final(self).ppu_written_from(&*old(self), addr, value),
    {
        match bus {
            BusKind::Cpu => self.write_cpu(addr, value),
            BusKind::Ppu => {
                proof {
                    lemma_bank_sizes();
                    lemma_u16(addr);
                }
                let bank_idx = (addr >> 10) & 7;
                let bank = self.chr_banks[bank_idx as usize];
                if let Some(ram) = &mut self.chr_ram {
                    ram.write_mapped(bank as usize, 1024, addr, value);
                }
            },
        }
    }

    fn tick(&mut self)
        ensures
            old(self).ticked_to(&*final(self)),
            old(self).ticked(&*final(self)),
    {
        if self.irq_counter_enable {
            self.irq_counter = self.irq_counter.wrapping_sub(1);
            if self.irq_counter == 0xffff && self.irq_enable {
                self.irq = true;
            }
        }
        if self.audio_enabled {
            self.audio.tick();
        }
    }

    fn get_irq(&self) -> (r: bool)
        ensures
            self.irq_is(r),
            r == self.irq_state().3,
    {
        self.irq
    }

    fn peek_ppu_fetch(&self, address: u16, _kind: PpuFetchKind) -> (r: Nametable) {
        self.mirroring.ppu_fetch(address)
    }

    fn get_sample(&self) -> (r: Option<i16>)
        ensures
            self.sample_is(r),
            r == Some(self.audio().sample()),
    {
        Some(self.audio.sample)
    }

    /// Battery-backed boards save their PRG RAM.
    fn save_wram(&self) -> (r: Option<SaveWram>)
        ensures
            self.wram_is(r),
            self.battery() ==> (r matches Some(w) && w@ == self.ram()),
            !self.battery() ==> r is None,
    {
        if self.cartridge.battery {
            self.prg_ram.save_wram()
        } else {
            None
        }
    }
}

impl Fme7 {
    /// What a write does to the board.
    pub open spec fn wrote(&self, new: &Fme7, bus: BusKind, addr: u16, value: u8) -> bool {
        &&& bus is Cpu ==> new.written_from(self, addr, value)
        &&& bus is Ppu ==> new.ppu_written_from(self, addr, value)
    }

    /// What a cycle does to the board.
    pub open spec fn ticked_to(&self, new: &Fme7) -> bool {
        &&& self.ticked(new)
    }

    /// The board's IRQ line.
    pub open spec fn irq_is(&self, r: bool) -> bool {
        &&& r == self.irq_state().3
    }

    /// The board's audio sample.
    pub open spec fn sample_is(&self, r: Option<i16>) -> bool {
        &&& r == Some(self.audio().sample())
    }

    /// The battery-backed RAM the board hands out.
    pub open spec fn wram_is(&self, r: Option<SaveWram>) -> bool {
        &&& self.battery() ==> (r matches Some(w) && w@ == self.ram())
        &&& !self.battery() ==> r is None
    }
}

} // verus!
