//! Konami VRC6 (iNES 24, 26): 16 KiB and 8 KiB switchable PRG, eight CHR
//! registers whose use (and the nametable mapping) the PPU banking mode
//! selects, the VRC IRQ counter, and two pulse channels and a sawtooth.
use vstd::prelude::*;

use crate::bits::lemma_u8;
use crate::bus::{AddressBus, AndAndMask, AndEqualsAndMask, BusKind, DeviceKind, MappingFn};
use crate::cartridge::INes;
use crate::mapper::vrc_irq::VrcIrq;
use crate::mapper::{MapperInput, banked, Mapper, Nametable, SaveWram};
use crate::memory::{lemma_bank_sizes, FixedMemoryBlock, Memory};
use crate::ppu::PpuFetchKind;

verus! {

#[derive(Debug, Copy, Clone, PartialEq, Eq, Structural)]
pub enum Vrc6Variant {
    A,
    B,
}

/// The register address the chip sees: VRC6b swaps address lines A0 and A1.
pub open spec fn vrc6_address(variant: Vrc6Variant, address: u16) -> u16 {
    match variant {
        Vrc6Variant::A => address,
        Vrc6Variant::B => (address & 0xfffc) | ((address & 0x1) << 1u16) | ((address & 0x2) >> 1u16),
    }
}

impl Vrc6Variant {
    fn address(&self, address: u16) -> (r: u16)
        ensures
            r == vrc6_address(*self, address),
    {
        match self {
            Vrc6Variant::A => address,
            Vrc6Variant::B => {
                let b0: u16 = (address & 0x1) << 1;
                let b1: u16 = (address & 0x2) >> 1;
                (address & 0xfffc) | b0 | b1
            },
        }
    }
}

/// The clock divider of the audio channels.
#[derive(Debug, Copy, Clone, PartialEq, Eq, Structural)]
pub enum FreqMode {
    X1,
    X4,
    X256,
}

/// A channel's reload period: the 12-bit period shifted right by 0, 4 or
/// 8 bits, and at least 1.
pub open spec fn freq_period(mode: FreqMode, period: u16) -> u16 {
    let p = match mode {
        FreqMode::X1 => period,
        FreqMode::X4 => period / 16,
        FreqMode::X256 => period / 256,
    };
    if p < 1 { 1 } else { p }
}

impl FreqMode {
    fn set(&self, period: u16) -> (r: u16)
        ensures
            r == freq_period(*self, period),
    {
        let period = match self {
            FreqMode::X1 => period,
            FreqMode::X4 => period / 16,
            FreqMode::X256 => period / 256,
        };
        if period < 1 {
            1
        } else {
            period
        }
    }
}

/// A VRC6 pulse channel: a 16-step duty sequencer with a 4-bit volume,
/// or a constant level in "digitized" mode.
#[derive(Debug, Clone)]
pub struct Pulse {
    period: u16,
    counter: u16,
    volume: u8,
    duty: u8,
    duty_counter: u8,
    constant: bool,
    enabled: bool,
    sample: u8,
}

impl Pulse {
    pub closed spec fn wf(&self) -> bool {
        self.volume < 16 && self.sample < 16
    }

    pub closed spec fn spec_sample(&self) -> u8 {
        self.sample
    }

    /// Period, volume, duty, constant mode and enable.
    pub closed spec fn regs(&self) -> (u16, u8, u8, bool, bool) {
        (self.period, self.volume, self.duty, self.constant, self.enabled)
    }

    /// Divider counter and duty step.
    pub closed spec fn position(&self) -> (u16, u8) {
        (self.counter, self.duty_counter)
    }

    /// One CPU cycle: a running channel steps its duty sequence each time
    /// its divider expires, outputting its volume for steps at or below
    /// the duty; a disabled one is silent and restarts its sequence; a
    /// constant one outputs its volume.
    pub closed spec fn ticked(self, freq: FreqMode) -> Pulse {
        if self.enabled && !self.constant {
            if self.counter == 0 {
                let s = if self.duty_counter == 0 {
                    Pulse { duty_counter: 15, ..self }
                } else {
                    let d = (self.duty_counter - 1) as u8;
                    Pulse { duty_counter: d, sample: if d <= self.duty { self.volume } else { 0 }, ..self }
                };
                Pulse { counter: freq_period(freq, self.period), ..s }
            } else {
                Pulse { counter: (self.counter - 1) as u16, ..self }
            }
        } else if !self.enabled {
            Pulse { duty_counter: 15, sample: 0, ..self }
        } else {
            Pulse { sample: self.volume, ..self }
        }
    }

    pub fn new() -> (r: Self)
        ensures
            r.wf(),
            r.regs() == (1u16, 0u8, 0u8, false, false),
            r.position() == (0u16, 0u8),
            r.spec_sample() == 0,
    {
        Self {
            period: 1,
            counter: 0,
            volume: 0,
            duty: 0,
            duty_counter: 0,
            constant: false,
            enabled: false,
            sample: 0,
        }
    }

    pub fn tick(&mut self, freq: FreqMode)
        requires
            old(self).wf(),
        ensures
            final(self).wf(),
            *final(self) == old(self).ticked(freq),
    {
        if self.enabled && !self.constant {
            if self.counter == 0 {
                if self.duty_counter == 0 {
                    self.duty_counter = 15;
                } else {
                    self.duty_counter = self.duty_counter - 1;
                    if self.duty_counter <= self.duty {
                        self.sample = self.volume;
                    } else {
                        self.sample = 0;
                    }
                }
                self.counter = freq.set(self.period);
            } else {
                self.counter = self.counter - 1;
            }
        } else if !self.enabled {
            self.duty_counter = 15;
            self.sample = 0;
        } else {
            self.sample = self.volume;
        }
    }

    /// Bits 0-3 volume, 4-6 duty, 7 constant mode.
    pub fn volume(&mut self, value: u8)
        requires
            old(self).wf(),
        ensures
            final(self).wf(),
            final(self).regs() == (
                old(self).regs().0,
                value % 16,
                (value / 16) % 8,
                value >= 0x80,
                old(self).regs().4,
            ),
            final(self).position() == old(self).position(),
            final(self).spec_sample() == old(self).spec_sample(),
    {
        proof {
            lemma_u8(value);
        }
        self.volume = value & 0xf;
        self.duty = (value >> 4) & 0x7;
        self.constant = value & 0x80 != 0;
    }

    /// The low byte of the period.
    pub fn freq_low(&mut self, value: u8)
        requires
            old(self).wf(),
        ensures
            final(self).wf(),
            final(self).regs() == (
                ((old(self).regs().0 & 0xff00) | value as u16) as u16,
                old(self).regs().1,
                old(self).regs().2,
                old(self).regs().3,
                old(self).regs().4,
            ),
            final(self).position() == old(self).position(),
            final(self).spec_sample() == old(self).spec_sample(),
    {
        self.period = (self.period & 0xff00) | value as u16;
    }

    /// The high nibble of the period; bit 7 enables the channel.
    pub fn freq_high(&mut self, value: u8)
        requires
            old(self).wf(),
        ensures
            final(self).wf(),
            final(self).regs() == (
                ((old(self).regs().0 & 0xff) | ((value as u16 & 0xf) << 8u16)) as u16,
                old(self).regs().1,
                old(self).regs().2,
                old(self).regs().3,
                value & 0x80 != 0,
            ),
            final(self).position() == old(self).position(),
            final(self).spec_sample() == old(self).spec_sample(),
    {
        self.period = (self.period & 0xff) | ((value as u16 & 0xf) << 8);
        self.enabled = value & 0x80 != 0;
    }

    pub fn sample(&self) -> (r: u8)
        ensures
            r == self.spec_sample(),
    {
        self.sample
    }
}

/// The VRC6 sawtooth: an accumulator that adds its rate every other
/// divider clock and resets after the seventh addition; the output is its
/// top five bits.
#[derive(Debug, Clone)]
pub struct Sawtooth {
    period: u16,
    counter: u16,
    accumulator_rate: u8,
    accumulator_counter: u8,
    accumulator: u8,
    enabled: bool,
    sample: u8,
}

impl Sawtooth {
    pub closed spec fn wf(&self) -> bool {
        self.accumulator_counter < 14 && self.sample < 32
    }

    pub closed spec fn spec_sample(&self) -> u8 {
        self.sample
    }

    /// Period, rate and enable.
    pub closed spec fn regs(&self) -> (u16, u8, bool) {
        (self.period, self.accumulator_rate, self.enabled)
    }

    /// Divider counter, step count and accumulator.
    pub closed spec fn position(&self) -> (u16, u8, u8) {
        (self.counter, self.accumulator_counter, self.accumulator)
    }

    pub closed spec fn ticked(self, freq: FreqMode) -> Sawtooth {
        if self.enabled {
            if self.counter == 0 {
                let c = (self.accumulator_counter + 1) as u8;
                let s = if c % 2 == 0 {
                    let a = self.accumulator.wrapping_add(self.accumulator_rate);
                    Sawtooth { accumulator: a, sample: a / 8, ..self }
                } else {
                    self
                };
                if c == 14 {
                    Sawtooth {
                        counter: freq_period(freq, self.period),
                        accumulator: 0,
                        sample: 0,
                        accumulator_counter: 0,
                        ..s
                    }
                } else {
                    Sawtooth { counter: freq_period(freq, self.period), accumulator_counter: c, ..s }
                }
            } else {
                Sawtooth { counter: (self.counter - 1) as u16, ..self }
            }
        } else {
            Sawtooth { accumulator_counter: 0, accumulator: 0, sample: 0, ..self }
        }
    }

    /// The sawtooth's sample stays below 32 (5 bits) on every tick: the
    /// accumulator's top five bits, reset every seventh step; a disabled
    /// channel outputs 0. With `new` giving a well-formed channel and
    /// `tick` keeping it so, this holds of every reachable state.
    pub proof fn lemma_sample_below_32(self, freq: FreqMode)
        requires
            self.wf(),
        ensures
            self.spec_sample() < 32,
            self.ticked(freq).wf(),
            self.ticked(freq).spec_sample() < 32,
            !self.regs().2 ==> self.ticked(freq).spec_sample() == 0,
    {
    }

    pub fn new() -> (r: Self)
        ensures
            r.wf(),
            r.regs() == (1u16, 0u8, false),
            r.position() == (0u16, 0u8, 0u8),
            r.spec_sample() == 0,
    {
        Self {
            period: 1,
            counter: 0,
            accumulator_rate: 0,
            accumulator_counter: 0,
            accumulator: 0,
            enabled: false,
            sample: 0,
        }
    }

    pub fn tick(&mut self, freq: FreqMode)
        requires
            old(self).wf(),
        ensures
            final(self).wf(),
            *final(self) == old(self).ticked(freq),
    {
        if self.enabled {
            if self.counter == 0 {
                self.counter = freq.set(self.period);
                self.accumulator_counter = self.accumulator_counter + 1;
                proof {
                    lemma_u8(self.accumulator_counter);
                }
                if self.accumulator_counter & 1 == 0 {
                    self.accumulator = self.accumulator.wrapping_add(self.accumulator_rate);
                    proof {
                        lemma_u8(self.accumulator);
                    }
                    self.sample = self.accumulator >> 3;
                }
                if self.accumulator_counter == 14 {
                    self.accumulator = 0;
                    self.sample = 0;
                    self.accumulator_counter = 0;
                }
            } else {
                self.counter = self.counter - 1;
            }
        } else {
            self.accumulator_counter = 0;
            self.accumulator = 0;
            self.sample = 0;
        }
    }

    /// The low six bits set the rate.
    pub fn accumulator_rate(&mut self, value: u8)
        requires
            old(self).wf(),
        ensures
            final(self).wf(),
            final(self).regs() == (old(self).regs().0, value % 64, old(self).regs().2),
            final(self).position() == old(self).position(),
            final(self).spec_sample() == old(self).spec_sample(),
    {
        proof {
            lemma_u8(value);
        }
        self.accumulator_rate = value & 0x3f;
    }

    pub fn freq_low(&mut self, value: u8)
        requires
            old(self).wf(),
        ensures
            final(self).wf(),
            final(self).regs() == (
                ((old(self).regs().0 & 0xff00) | value as u16) as u16,
                old(self).regs().1,
                old(self).regs().2,
            ),
            final(self).position() == old(self).position(),
            final(self).spec_sample() == old(self).spec_sample(),
    {
        self.period = (self.period & 0xff00) | value as u16;
    }

    pub fn freq_high(&mut self, value: u8)
        requires
            old(self).wf(),
        ensures
            final(self).wf(),
            final(self).regs() == (
                ((old(self).regs().0 & 0xff) | ((value as u16 & 0xf) << 8u16)) as u16,
                old(self).regs().1,
                value & 0x80 != 0,
            ),
            final(self).position() == old(self).position(),
            final(self).spec_sample() == old(self).spec_sample(),
    {
        self.period = (self.period & 0xff) | ((value as u16 & 0xf) << 8);
        self.enabled = value & 0x80 != 0;
    }

    pub fn sample(&self) -> (r: u8)
        ensures
            r == self.spec_sample(),
    {
        self.sample
    }
}

/// The output scale: each unit of channel level is 1/64 of the sample range.
pub const VRC6_MIX: i16 = 511;

/// CHR bank and bank size in KiB for a pattern-table address: mode 0 uses
/// eight 1 KiB banks, mode 1 four 2 KiB windows, modes 2 and 3 1 KiB banks
/// below $1000 and 2 KiB windows above; bit 5 of the mode makes the 2 KiB
/// windows true 2 KiB banks (dropping the low bit of the register).
pub open spec fn vrc6_chr_map(r: Seq<u8>, mode: u8, addr: u16) -> (int, int) {
    let a = addr as int;
    let i10 = (a / 0x400) % 8;
    let i11 = (a / 0x800) % 4;
    let wide = mode & 0x20 != 0;
    let m = mode % 4;
    if m == 0 {
        (r[i10] as int, 1)
    } else if m == 1 {
        if wide {
            ((r[i11] / 2) as int, 2)
        } else {
            (r[i11] as int, 1)
        }
    } else if (a / 0x1000) % 2 == 0 {
        (r[i10] as int, 1)
    } else if wide {
        ((r[i11 + 2] / 2) as int, 2)
    } else {
        (r[i11 + 2] as int, 1)
    }
}

/// The 1 KiB CHR ROM page serving nametable `(addr / $400) % 4`, by the
/// mirroring the mode bits select.
pub open spec fn vrc6_nt_page(r: Seq<u8>, mode: u8, addr: u16) -> u8 {
    let nt = ((addr as int) / 0x400) % 4;
    let horz = r[6 + nt / 2];
    let vert = r[6 + nt % 2];
    let four = r[nt + 4];
    if mode & 0x20 != 0 {
        let m = mode % 4;
        let mm = (mode / 4) % 4;
        if (m == 0 && mm == 0) || (m == 3 && mm == 1) {
            (horz & 0xfe) | ((nt % 2) as u8)
        } else if (m == 0 && mm == 1) || (m == 3 && mm == 0) {
            (vert & 0xfe) | ((nt / 2) as u8)
        } else if (m == 0 && mm == 2) || (m == 3 && mm == 3) {
            horz & 0xfe
        } else if (m == 0 && mm == 3) || (m == 3 && mm == 2) {
            vert | 1
        } else if m == 1 {
            four
        } else if mm == 0 || mm == 2 {
            vert
        } else {
            horz
        }
    } else {
        let low = mode % 16;
        if low == 0 || low == 6 || low == 7 || low == 8 || low == 14 || low == 15 {
            horz
        } else if low == 1 || low == 5 || low == 9 || low == 13 {
            four
        } else {
            vert
        }
    }
}

/// The register a decoded address at $D000-$E003 loads.
pub open spec fn vrc6_chr_reg(d: u16) -> int {
    (d as int) % 4 + if d >= 0xe000 { 4int } else { 0int }
}

pub struct Vrc6 {
    cartridge: INes,
    variant: Vrc6Variant,
    irq: VrcIrq,
    prg_ram: FixedMemoryBlock<8>,
    ram_protect: bool,
    prg_regs: [u8; 3],
    chr_regs: [u8; 8],
    chr_mode: u8,
    halt_audio: bool,
    freq_mode: FreqMode,
    pulse_a: Pulse,
    pulse_b: Pulse,
    sawtooth: Sawtooth,
}

impl Vrc6 {
    pub closed spec fn prg(&self) -> Seq<u8> {
        self.cartridge.prg_rom@
    }

    pub closed spec fn chr(&self) -> Seq<u8> {
        self.cartridge.chr_rom@
    }

    pub closed spec fn ram(&self) -> Seq<u8> {
        self.prg_ram@
    }

    pub closed spec fn variant(&self) -> Vrc6Variant {
        self.variant
    }

    pub closed spec fn irq(&self) -> VrcIrq {
        self.irq
    }

    pub closed spec fn prg_regs(&self) -> Seq<u8> {
        self.prg_regs@
    }

    pub closed spec fn chr_regs(&self) -> Seq<u8> {
        self.chr_regs@
    }

    pub closed spec fn chr_mode(&self) -> u8 {
        self.chr_mode
    }

    pub closed spec fn ram_protect(&self) -> bool {
        self.ram_protect
    }

    /// Audio halted and the divider mode.
    pub closed spec fn audio_control(&self) -> (bool, FreqMode) {
        (self.halt_audio, self.freq_mode)
    }

    pub closed spec fn channels(&self) -> (Pulse, Pulse, Sawtooth) {
        (self.pulse_a, self.pulse_b, self.sawtooth)
    }

    pub closed spec fn battery(&self) -> bool {
        self.cartridge.battery
    }

    /// The board after a CPU write, apart from the register arrays and the
    /// RAM (given by `written_from`).
    pub closed spec fn write_post(self, addr: u16, value: u8) -> Vrc6 {
        if addr < 0x8000 {
            self
        } else {
            let d = vrc6_address(self.variant, addr);
            if d == 0xb003 {
                Vrc6 { ram_protect: value & 0x80 == 0, chr_mode: value & 0x3f, ..self }
            } else if d == 0xf000 {
                Vrc6 { irq: VrcIrq { latch: value, ..self.irq }, ..self }
            } else if d == 0xf001 {
                Vrc6 {
                    irq: VrcIrq {
                        renable: value & 0x1 != 0,
                        enabled: value & 0x2 != 0,
                        mode: if value & 0x4 != 0 {
                            crate::mapper::vrc_irq::VrcIrqMode::Cycle
                        } else {
                            crate::mapper::vrc_irq::VrcIrqMode::Scanline
                        },
                        triggered: false,
                        scanline_counter: 341,
                        counter: if value & 0x2 != 0 { self.irq.latch } else { self.irq.counter },
                        ..self.irq
                    },
                    ..self
                }
            } else if d == 0xf002 {
                Vrc6 { irq: VrcIrq { triggered: false, ..self.irq }, ..self }
            } else if d == 0x9003 {
                Vrc6 {
                    halt_audio: value & 1 != 0,
                    freq_mode: if value & 4 != 0 {
                        FreqMode::X256
                    } else if value & 2 != 0 {
                        FreqMode::X4
                    } else {
                        FreqMode::X1
                    },
                    ..self
                }
            } else {
                self
            }
        }
    }

    /// A CPU write: $8000 and $C000 load the PRG registers, $D000-$E003
    /// the CHR registers, $B003 the banking mode and RAM enable, $F000-
    /// $F002 the IRQ, $9003 the audio control, and the other registers of
    /// $9000-$B002 the audio channels; below $8000 unprotected RAM.
    pub closed spec fn written_from(&self, old: &Vrc6, addr: u16, value: u8) -> bool {
        let d = vrc6_address(old.variant, addr);
        let hi = addr >= 0x8000;
        &&& *self == Vrc6 {
            prg_regs: self.prg_regs,
            chr_regs: self.chr_regs,
            prg_ram: self.prg_ram,
            pulse_a: self.pulse_a,
            pulse_b: self.pulse_b,
            sawtooth: self.sawtooth,
            ..old.write_post(addr, value)
        }
        &&& self.prg_regs@ == if hi && 0x8000 <= d <= 0x8003 {
            old.prg_regs@.update(0, value & 0xf)
        } else if hi && 0xc000 <= d <= 0xc003 {
            old.prg_regs@.update(1, value & 0x1f)
        } else {
            old.prg_regs@
        }
        &&& self.chr_regs@ == if hi && 0xd000 <= d <= 0xe003 {
            old.chr_regs@.update(vrc6_chr_reg(d), value)
        } else {
            old.chr_regs@
        }
        &&& self.prg_ram@ == if !hi && !old.ram_protect {
            old.prg_ram@.update((addr as int) % 0x2000, value)
        } else {
            old.prg_ram@
        }
        &&& self.pulse_a.regs() == if hi && d == 0x9000 {
            (
                old.pulse_a.regs().0,
                value % 16,
                (value / 16) % 8,
                value >= 0x80,
                old.pulse_a.regs().4,
            )
        } else if hi && d == 0x9001 {
            (
                ((old.pulse_a.regs().0 & 0xff00) | value as u16) as u16,
                old.pulse_a.regs().1,
                old.pulse_a.regs().2,
                old.pulse_a.regs().3,
                old.pulse_a.regs().4,
            )
        } else if hi && d == 0x9002 {
            (
                ((old.pulse_a.regs().0 & 0xff) | ((value as u16 & 0xf) << 8u16)) as u16,
                old.pulse_a.regs().1,
                old.pulse_a.regs().2,
                old.pulse_a.regs().3,
                value & 0x80 != 0,
            )
        } else {
            old.pulse_a.regs()
        }
        &&& self.pulse_b.regs() == if hi && d == 0xa000 {
            (
                old.pulse_b.regs().0,
                value % 16,
                (value / 16) % 8,
                value >= 0x80,
                old.pulse_b.regs().4,
            )
        } else if hi && d == 0xa001 {
            (
                ((old.pulse_b.regs().0 & 0xff00) | value as u16) as u16,
                old.pulse_b.regs().1,
                old.pulse_b.regs().2,
                old.pulse_b.regs().3,
                old.pulse_b.regs().4,
            )
        } else if hi && d == 0xa002 {
            (
                ((old.pulse_b.regs().0 & 0xff) | ((value as u16 & 0xf) << 8u16)) as u16,
                old.pulse_b.regs().1,
                old.pulse_b.regs().2,
                old.pulse_b.regs().3,
                value & 0x80 != 0,
            )
        } else {
            old.pulse_b.regs()
        }
        &&& self.sawtooth.regs() == if hi && d == 0xb000 {
            (old.sawtooth.regs().0, value % 64, old.sawtooth.regs().2)
        } else if hi && d == 0xb001 {
            (
                ((old.sawtooth.regs().0 & 0xff00) | value as u16) as u16,
                old.sawtooth.regs().1,
                old.sawtooth.regs().2,
            )
        } else if hi && d == 0xb002 {
            (
                ((old.sawtooth.regs().0 & 0xff) | ((value as u16 & 0xf) << 8u16)) as u16,
                old.sawtooth.regs().1,
                value & 0x80 != 0,
            )
        } else {
            old.sawtooth.regs()
        }
        &&& self.pulse_a.position() == old.pulse_a.position()
        &&& self.pulse_b.position() == old.pulse_b.position()
        &&& self.sawtooth.position() == old.sawtooth.position()
        &&& self.pulse_a.spec_sample() == old.pulse_a.spec_sample()
        &&& self.pulse_b.spec_sample() == old.pulse_b.spec_sample()
        &&& self.sawtooth.spec_sample() == old.sawtooth.spec_sample()
    }

    /// The board as it comes up at power-on from this image.
    pub open spec fn powered_on(&self, cartridge: INes, variant: Vrc6Variant) -> bool {
        &&& self.prg() == cartridge.prg_rom@
        &&& self.chr() == cartridge.chr_rom@
        &&& self.variant() == variant
        &&& self.irq() == VrcIrq::initial()
        &&& self.ram().len() == 8 * 1024
        &&& forall|i: int|
                0 <= i < 8 * 1024 ==> #[trigger] self.ram()[i] == match cartridge.wram {
                    Some(w) => if i < w@.len() { w@[i] } else { 0u8 },
                    None => 0u8,
                }
        &&& self.ram_protect()
        &&& self.prg_regs() == seq![0u8, 0, ((cartridge.prg_rom@.len() / 0x2000) - 1) as u8]
        &&& self.chr_regs() == Seq::new(8, |i: int| 0u8)
        &&& self.chr_mode() == 0x20
        &&& self.audio_control() == (true, FreqMode::X1)
        &&& self.channels().0.spec_sample() == 0 && self.channels().1.spec_sample() == 0
                && self.channels().2.spec_sample() == 0
        &&& self.battery() == cartridge.battery
        &&& cartridge.chr_rom@.len() > 0 ==> self.wf()
    }

    /// PRG RAM loaded from the save and protected; the last PRG register
    /// holds the last bank; audio starts halted.
    pub fn new(cartridge: INes, variant: Vrc6Variant) -> (r: Self)
        requires
            cartridge.prg_rom@.len() >= 0x2000,
        ensures
            r.powered_on(cartridge, variant),
            r.prg() == cartridge.prg_rom@,
            r.chr() == cartridge.chr_rom@,
            r.variant() == variant,
            r.irq() == VrcIrq::initial(),
            r.ram().len() == 8 * 1024,
            forall|i: int|
                0 <= i < 8 * 1024 ==> #[trigger] r.ram()[i] == match cartridge.wram {
                    Some(w) => if i < w@.len() { w@[i] } else { 0u8 },
                    None => 0u8,
                },
            r.ram_protect(),
            r.prg_regs() == seq![0u8, 0, ((cartridge.prg_rom@.len() / 0x2000) - 1) as u8],
            r.chr_regs() == Seq::new(8, |i: int| 0u8),
            r.chr_mode() == 0x20,
            r.audio_control() == (true, FreqMode::X1),
            r.channels().0.spec_sample() == 0 && r.channels().1.spec_sample() == 0
                && r.channels().2.spec_sample() == 0,
            r.battery() == cartridge.battery,
            cartridge.chr_rom@.len() > 0 ==> r.wf(),
    {
        let mut cartridge = cartridge;
        let mut prg_ram = FixedMemoryBlock::<8>::new();
        if let Some(wram) = cartridge.wram.take() {
            prg_ram.restore_wram(wram);
        }
        let last_bank = ((cartridge.prg_rom.len() / 0x2000) - 1) as u8;
        let r = Self {
            cartridge,
            variant,
            irq: VrcIrq::new(),
            prg_ram,
            ram_protect: true,
            prg_regs: [0, 0, last_bank],
            chr_regs: [0; 8],
            chr_mode: 0x20,
            halt_audio: true,
            freq_mode: FreqMode::X1,
            pulse_a: Pulse::new(),
            pulse_b: Pulse::new(),
            sawtooth: Sawtooth::new(),
        };
        assert(r.prg_regs@ =~= seq![0u8, 0, last_bank]);
        assert(r.chr_regs@ =~= Seq::new(8, |i: int| 0u8));
        r
    }

    fn read_cpu(&self, addr: u16) -> (r: u8)
        requires
            self.wf(),
        ensures
            r == self.spec_peek(BusKind::Cpu, addr),
    {
        proof {
            lemma_bank_sizes();
        }
        if addr < 0x8000 {
            if self.ram_protect {
                0
            } else {
                self.prg_ram.read(addr)
            }
        } else {
            let region = addr & 0xe000;
            let (bank_idx, size): (usize, usize) = if region == 0xc000 {
                (1, 8)
            } else if region == 0xe000 {
                (2, 8)
            } else {
                (0, 16)
            };
            let bank = self.prg_regs[bank_idx] as usize;
            self.cartridge.prg_rom.read_mapped(bank, size * 1024, addr)
        }
    }

    fn map_chr(&self, addr: u16) -> (r: (usize, usize))
        ensures
            r.0 == vrc6_chr_map(self.chr_regs@, self.chr_mode, addr).0,
            r.1 == vrc6_chr_map(self.chr_regs@, self.chr_mode, addr).1,
    {
        let i10 = ((addr / 0x400) % 8) as usize;
        let i11 = ((addr / 0x800) % 4) as usize;
        let wide = self.chr_mode & 0x20 != 0;
        let m = self.chr_mode % 4;
        if m == 0 {
            (self.chr_regs[i10] as usize, 1)
        } else if m == 1 {
            if wide {
                ((self.chr_regs[i11] / 2) as usize, 2)
            } else {
                (self.chr_regs[i11] as usize, 1)
            }
        } else if (addr / 0x1000) % 2 == 0 {
            (self.chr_regs[i10] as usize, 1)
        } else if wide {
            ((self.chr_regs[i11 + 2] / 2) as usize, 2)
        } else {
            (self.chr_regs[i11 + 2] as usize, 1)
        }
    }

    fn map_nt(&self, addr: u16) -> (r: u8)
        ensures
            r == vrc6_nt_page(self.chr_regs@, self.chr_mode, addr),
    {
        let nt = ((addr / 0x400) % 4) as usize;
        let horz = self.chr_regs[6 + nt / 2];
        let vert = self.chr_regs[6 + nt % 2];
        let four = self.chr_regs[nt + 4];
        let mode = self.chr_mode;
        if mode & 0x20 != 0 {
            let m = mode % 4;
            let mm = (mode / 4) % 4;
            if (m == 0 && mm == 0) || (m == 3 && mm == 1) {
                (horz & 0xfe) | ((nt % 2) as u8)
            } else if (m == 0 && mm == 1) || (m == 3 && mm == 0) {
                (vert & 0xfe) | ((nt / 2) as u8)
            } else if (m == 0 && mm == 2) || (m == 3 && mm == 3) {
                horz & 0xfe
            } else if (m == 0 && mm == 3) || (m == 3 && mm == 2) {
                vert | 1
            } else if m == 1 {
                four
            } else if mm == 0 || mm == 2 {
                vert
            } else {
                horz
            }
        } else {
            let low = mode % 16;
            if low == 0 || low == 6 || low == 7 || low == 8 || low == 14 || low == 15 {
                horz
            } else if low == 1 || low == 5 || low == 9 || low == 13 {
                four
            } else {
                vert
            }
        }
    }

    fn write_cpu(&mut self, addr: u16, value: u8)
        requires
            old(self).wf(),
        ensures
            final(self).wf(),
            final(self).written_from(&*old(self), addr, value),
    {
        if addr < 0x8000 {
            if !self.ram_protect {
                self.prg_ram.write(addr, value);
            }
            return;
        }
        let d = self.variant.address(addr);
        if 0x8000 <= d && d <= 0x8003 {
            self.prg_regs[0] = value & 0xf;
        } else if 0xc000 <= d && d <= 0xc003 {
            self.prg_regs[1] = value & 0x1f;
        } else if d == 0xb003 {
            self.ram_protect = value & 0x80 == 0;
            self.chr_mode = value & 0x3f;
        } else if 0xd000 <= d && d <= 0xe003 {
            let reg = (d % 4) as usize + if d >= 0xe000 {
                4
            } else {
                0
            };
            self.chr_regs[reg] = value;
        } else if d == 0xf000 {
            self.irq.latch(value);
        } else if d == 0xf001 {
            self.irq.control(value);
        } else if d == 0xf002 {
            self.irq.acknowledge();
        } else if d == 0x9003 {
            self.halt_audio = value & 1 != 0;
            if value & 4 != 0 {
                self.freq_mode = FreqMode::X256;
            } else if value & 2 != 0 {
                self.freq_mode = FreqMode::X4;
            } else {
                self.freq_mode = FreqMode::X1;
            }
        } else if d == 0x9000 {
            self.pulse_a.volume(value);
        } else if d == 0x9001 {
            self.pulse_a.freq_low(value);
        } else if d == 0x9002 {
            self.pulse_a.freq_high(value);
        } else if d == 0xa000 {
            self.pulse_b.volume(value);
        } else if d == 0xa001 {
            self.pulse_b.freq_low(value);
        } else if d == 0xa002 {
            self.pulse_b.freq_high(value);
        } else if d == 0xb000 {
            self.sawtooth.accumulator_rate(value);
        } else if d == 0xb001 {
            self.sawtooth.freq_low(value);
        } else if d == 0xb002 {
            self.sawtooth.freq_high(value);
        }
    }
}

impl Mapper for Vrc6 {
    closed spec fn wf(&self) -> bool {
        &&& self.prg().len() > 0
        &&& self.chr().len() > 0
        &&& self.prg_ram.wf()
        &&& self.pulse_a.wf()
        &&& self.pulse_b.wf()
        &&& self.sawtooth.wf()
    }

    open spec fn readable(&self, bus: BusKind, addr: u16) -> bool {
        true
    }

    /// CPU writes at or above $8000 reach only the four registers at the
    /// start of each 4 KiB page (the bus masks the others away).
    open spec fn writable(&self, bus: BusKind, addr: u16) -> bool {
        bus is Cpu ==> (addr < 0x8000 || (addr as int) % 0x1000 < 4)
    }

    closed spec fn accepts(&self, input: MapperInput) -> bool {
        true
    }

    open spec fn fetchable(&self, address: u16) -> bool {
        true
    }

    open spec fn spec_peek(&self, bus: BusKind, addr: u16) -> u8 {
        match bus {
            BusKind::Cpu => if addr < 0x8000 {
                if self.ram_protect() {
                    0
                } else {
                    self.ram()[(addr as int) % 0x2000]
                }
            } else {
                let region = addr & 0xe000;
                if region == 0xc000 {
                    banked(self.prg(), self.prg_regs()[1] as usize, 0x2000, addr)
                } else if region == 0xe000 {
                    banked(self.prg(), self.prg_regs()[2] as usize, 0x2000, addr)
                } else {
                    banked(self.prg(), self.prg_regs()[0] as usize, 0x4000, addr)
                }
            },
            BusKind::Ppu => if addr & 0x2000 != 0 {
                banked(self.chr(), vrc6_nt_page(self.chr_regs(), self.chr_mode(), addr) as usize, 0x400, addr)
            } else {
                let (bank, size) = vrc6_chr_map(self.chr_regs(), self.chr_mode(), addr);
                banked(self.chr(), bank as usize, (size * 0x400) as usize, addr)
            },
        }
    }

    /// With bit 4 of the mode clear the nametables are the console's, the
    /// low bit of the selected page choosing which; else the cartridge's.
    closed spec fn spec_nametable(&self, address: u16) -> Nametable {
        if self.chr_mode & 0x10 == 0 {
            if address & 0x2000 == 0 {
                Nametable::External
            } else if vrc6_nt_page(self.chr_regs@, self.chr_mode, address) & 1 == 0 {
                Nametable::InternalB
            } else {
                Nametable::InternalA
            }
        } else {
            Nametable::External
        }
    }

    fn register(&self, cpu: &mut AddressBus)
        ensures
            final(cpu).reads() == old(cpu).reads().push(
                (MappingFn::AndEqualsAndMask(AndEqualsAndMask(0xe000, 0x6000, 0x7fff)), DeviceKind::Mapper),
            ).push((MappingFn::AndAndMask(AndAndMask(0x8000, 0xffff)), DeviceKind::Mapper)),
            final(cpu).writes() == old(cpu).writes().push(
                (MappingFn::AndEqualsAndMask(AndEqualsAndMask(0xe000, 0x6000, 0x7fff)), DeviceKind::Mapper),
            ).push((MappingFn::AndAndMask(AndAndMask(0x8000, 0xf003)), DeviceKind::Mapper)),
    {
        cpu.register_read(DeviceKind::Mapper, AndEqualsAndMask(0xe000, 0x6000, 0x7fff).into());
        cpu.register_write(DeviceKind::Mapper, AndEqualsAndMask(0xe000, 0x6000, 0x7fff).into());
        cpu.register_read(DeviceKind::Mapper, AndAndMask(0x8000, 0xffff).into());
        cpu.register_write(DeviceKind::Mapper, AndAndMask(0x8000, 0xf003).into());
    }

    fn peek(&self, bus: BusKind, addr: u16) -> (r: u8) {
        match bus {
            BusKind::Cpu => self.read_cpu(addr),
            BusKind::Ppu => {
                proof {
                    lemma_bank_sizes();
                }
                if addr & 0x2000 != 0 {
                    let bank = self.map_nt(addr);
                    self.cartridge.chr_rom.read_mapped(bank as usize, 1024, addr)
                } else {
                    let (bank, size) = self.map_chr(addr);
                    self.cartridge.chr_rom.read_mapped(bank, size * 1024, addr)
                }
            },
        }
    }

    fn write(&mut self, bus: BusKind, addr: u16, value: u8)
        ensures
            old(self).wrote(&*final(self), bus, addr, value),
            bus is Ppu ==> *final(self) == *old(self),
            bus is Cpu ==> final(self).written_from(&*old(self), addr, value),
            final(self).variant() == old(self).variant(),
    {
        match bus {
            BusKind::Cpu => self.write_cpu(addr, value),
            BusKind::Ppu => (),
        }
    }

    fn peek_ppu_fetch(&self, address: u16, _kind: PpuFetchKind) -> (r: Nametable) {
        if self.chr_mode & 0x10 == 0x0 {
            if address & 0x2000 == 0 {
                Nametable::External
            } else {
                let nt = self.map_nt(address);
                if nt & 1 == 0 {
                    Nametable::InternalB
                } else {
                    Nametable::InternalA
                }
            }
        } else {
            Nametable::External
        }
    }

    fn get_irq(&self) -> (r: bool)
        ensures
            self.irq_is(r),
            r == self.irq().triggered,
    {
        self.irq.irq()
    }

    /// Every CPU cycle clocks the IRQ counter and, unless halted, the
    /// three channels.
    fn tick(&mut self)
        ensures
            old(self).ticked_to(&*final(self)),
            final(self).irq() == old(self).irq().tick_post(),
            final(self).channels() == if old(self).audio_control().0 {
                old(self).channels()
            } else {
                (
                    old(self).channels().0.ticked(old(self).audio_control().1),
                    old(self).channels().1.ticked(old(self).audio_control().1),
                    old(self).channels().2.ticked(old(self).audio_control().1),
                )
            },
            final(self).same_but_clocked(&*old(self)),
            final(self).variant() == old(self).variant(),
    {
        self.irq.tick();
        if !self.halt_audio {
            let freq = self.freq_mode;
            self.pulse_a.tick(freq);
            self.pulse_b.tick(freq);
            self.sawtooth.tick(freq);
        }
    }

    /// The three channel levels summed and scaled.
    fn get_sample(&self) -> (r: Option<i16>)
        ensures
            self.sample_is(r),
            r == Some(
                ((self.channels().0.spec_sample() + self.channels().1.spec_sample()
                    + self.channels().2.spec_sample()) * VRC6_MIX) as i16,
            ),
    {
        let val = (self.pulse_a.sample() as i16 + self.pulse_b.sample() as i16
            + self.sawtooth.sample() as i16) * VRC6_MIX;
        Some(val)
    }

    /// Battery-backed boards save their PRG RAM.
    fn save_wram(&self) -> (r: Option<SaveWram>)
        ensures
            self.wram_is(r),
            self.battery() ==> (r matches Some(w) && w@ == self.ram()),
            !self.battery() ==> r is None,
    {
        if self.cartridge.battery {
            self.prg_ram.save_wram()
        } else {
            None
        }
    }
}

impl Vrc6 {
    /// What a write does to the board.
    pub open spec fn wrote(&self, new: &Vrc6, bus: BusKind, addr: u16, value: u8) -> bool {
        &&& bus is Ppu ==> *new == *self
        &&& bus is Cpu ==> new.written_from(self, addr, value)
        &&& new.variant() == self.variant()
    }

    /// What a cycle does to the board.
    pub open spec fn ticked_to(&self, new: &Vrc6) -> bool {
        &&& new.irq() == self.irq().tick_post()
        &&& new.channels() == if self.audio_control().0 {
                    self.channels()
                } else {
                    (
                        self.channels().0.ticked(self.audio_control().1),
                        self.channels().1.ticked(self.audio_control().1),
                        self.channels().2.ticked(self.audio_control().1),
                    )
                }
        &&& new.same_but_clocked(self)
        &&& new.variant() == self.variant()
    }

    /// The board's IRQ line.
    pub open spec fn irq_is(&self, r: bool) -> bool {
        &&& r == self.irq().triggered
    }

    /// The board's audio sample.
    pub open spec fn sample_is(&self, r: Option<i16>) -> bool {
        &&& r == Some(
                    ((self.channels().0.spec_sample() + self.channels().1.spec_sample()
                        + self.channels().2.spec_sample()) * VRC6_MIX) as i16,
                )
    }

    /// The battery-backed RAM the board hands out.
    pub open spec fn wram_is(&self, r: Option<SaveWram>) -> bool {
        &&& self.battery() ==> (r matches Some(w) && w@ == self.ram())
        &&& !self.battery() ==> r is None
    }
}

impl Vrc6 {
    /// Everything but the IRQ counter and the audio channels agrees.
    pub closed spec fn same_but_clocked(&self, other: &Vrc6) -> bool {
        *self == (Vrc6 {
            irq: self.irq,
            pulse_a: self.pulse_a,
            pulse_b: self.pulse_b,
            sawtooth: self.sawtooth,
            ..*other
        })
    }
}

} // verus!
