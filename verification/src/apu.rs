//! Audio processing unit glue shared by the channels: the length counter
//! table, frame-sequencer snapshots and per-channel solo/mute controls.
use vstd::prelude::*;

use crate::bus::{Address, AddressBus, AndEqualsAndMask, DeviceKind, MappingFn};
use crate::channel::dmc::{lemma_dmc_can_tick, Dmc};
use crate::channel::noise::{lemma_noise_can_tick, Noise};
use crate::channel::pulse::{lemma_pulse_can_tick, Pulse, PulseChannel};
use crate::channel::triangle::{lemma_triangle_can_tick, Triangle};
use crate::channel::Channel;
use crate::cpu::dma::DmcDmaKind;
use crate::region::{Region, FIVE_STEP_SEQ_NTSC, FIVE_STEP_SEQ_PAL, FOUR_STEP_SEQ_NTSC, FOUR_STEP_SEQ_PAL};
use crate::ring_buf::{after_push, RingBuf, RingIter};
use crate::run_until::{Frames, RunEvent, RunUntil};
use crate::channel::dmc::lemma_dmc_level;
use crate::channel::noise::lemma_noise_level;
use crate::channel::pulse::lemma_pulse_level;
use crate::channel::triangle::lemma_triangle_output;

verus! {

pub const LENGTH_TABLE: [u8; 32] = [
    10, 254, 20, 2, 40, 4, 80, 6, 160, 8, 60, 10, 14, 12, 26, 14, 12, 16, 24, 18, 48, 20, 96, 22,
    192, 24, 72, 26, 16, 28, 32, 30,
];

/// The length-counter load for the 5-bit index written to a channel's
/// fourth register.
pub fn length_load_value(index: u8) -> (r: u8)
    requires
        index < 32,
    ensures
        r == LENGTH_TABLE@[index as int],
{
    LENGTH_TABLE[index as usize]
}

} // verus!

verus! {

/// Which frame-sequencer clocks happen on this APU cycle.
#[derive(Debug, Copy, Clone, PartialEq, Eq, Structural)]
pub struct ApuSnapshot {
    pub is_half_frame: bool,
    pub is_quarter_frame: bool,
}

/// Per-channel solo and mute switches. Any solo silences every channel
/// that is not soloed; a mute always silences its channel.
#[derive(Debug, Copy, Clone, PartialEq, Eq, Structural)]
pub struct ChannelPlayback {
    pub pulse_1_solo: bool,
    pub pulse_2_solo: bool,
    pub triangle_solo: bool,
    pub noise_solo: bool,
    pub dmc_solo: bool,
    pub ext_solo: bool,
    pub pulse_1_mute: bool,
    pub pulse_2_mute: bool,
    pub triangle_mute: bool,
    pub noise_mute: bool,
    pub dmc_mute: bool,
    pub ext_mute: bool,
}

impl ChannelPlayback {
    pub open spec fn spec_any_solo(&self) -> bool {
        self.pulse_1_solo || self.pulse_2_solo || self.triangle_solo || self.noise_solo
            || self.dmc_solo || self.ext_solo
    }

    /// Whether a channel with these switches is heard.
    pub open spec fn audible(&self, solo: bool, mute: bool) -> bool {
        !mute && (solo || !self.spec_any_solo())
    }

    /// No solo and no mute.
    pub open spec fn spec_new() -> ChannelPlayback {
        ChannelPlayback {
            pulse_1_solo: false,
            pulse_2_solo: false,
            triangle_solo: false,
            noise_solo: false,
            dmc_solo: false,
            ext_solo: false,
            pulse_1_mute: false,
            pulse_2_mute: false,
            triangle_mute: false,
            noise_mute: false,
            dmc_mute: false,
            ext_mute: false,
        }
    }

    /// Everything audible.
    pub fn new() -> (r: Self)
        ensures
            r == Self::spec_new(),
            !r.spec_any_solo(),
            !r.pulse_1_mute && !r.pulse_2_mute && !r.triangle_mute && !r.noise_mute && !r.dmc_mute
                && !r.ext_mute,
    {
        ChannelPlayback {
            pulse_1_solo: false,
            pulse_2_solo: false,
            triangle_solo: false,
            noise_solo: false,
            dmc_solo: false,
            ext_solo: false,
            pulse_1_mute: false,
            pulse_2_mute: false,
            triangle_mute: false,
            noise_mute: false,
            dmc_mute: false,
            ext_mute: false,
        }
    }

    fn any_solo(&self) -> (r: bool)
        ensures
            r == self.spec_any_solo(),
    {
        self.pulse_1_solo || self.pulse_2_solo || self.triangle_solo || self.noise_solo
            || self.dmc_solo || self.ext_solo
    }

    pub fn pulse_1(&self, v: u8) -> (r: u8)
        ensures
            r == if self.audible(self.pulse_1_solo, self.pulse_1_mute) { v } else { 0 },
    {
        if self.pulse_1_mute || (!self.pulse_1_solo && self.any_solo()) {
            0
        } else {
            v
        }
    }

    pub fn pulse_2(&self, v: u8) -> (r: u8)
        ensures
            r == if self.audible(self.pulse_2_solo, self.pulse_2_mute) { v } else { 0 },
    {
        if self.pulse_2_mute || (!self.pulse_2_solo && self.any_solo()) {
            0
        } else {
            v
        }
    }

    pub fn triangle(&self, v: u8) -> (r: u8)
        ensures
            r == if self.audible(self.triangle_solo, self.triangle_mute) { v } else { 0 },
    {
        if self.triangle_mute || (!self.triangle_solo && self.any_solo()) {
            0
        } else {
            v
        }
    }

    pub fn noise(&self, v: u8) -> (r: u8)
        ensures
            r == if self.audible(self.noise_solo, self.noise_mute) { v } else { 0 },
    {
        if self.noise_mute || (!self.noise_solo && self.any_solo()) {
            0
        } else {
            v
        }
    }

    pub fn dmc(&self, v: u8) -> (r: u8)
        ensures
            r == if self.audible(self.dmc_solo, self.dmc_mute) { v } else { 0 },
    {
        if self.dmc_mute || (!self.dmc_solo && self.any_solo()) {
            0
        } else {
            v
        }
    }

    pub fn ext(&self, v: i16) -> (r: i16)
        ensures
            r == if self.audible(self.ext_solo, self.ext_mute) { v } else { 0 },
    {
        if self.ext_mute || (!self.ext_solo && self.any_solo()) {
            0
        } else {
            v
        }
    }
}

/// Soloing one channel silences every other channel and leaves the
/// soloed one as it was.
pub proof fn lemma_solo_isolates(p: ChannelPlayback)
    requires
        p.pulse_1_solo,
        !p.pulse_1_mute,
        !p.pulse_2_solo,
        !p.triangle_solo,
        !p.noise_solo,
        !p.dmc_solo,
        !p.ext_solo,
    ensures
        p.audible(p.pulse_1_solo, p.pulse_1_mute),
        !p.audible(p.pulse_2_solo, p.pulse_2_mute),
        !p.audible(p.triangle_solo, p.triangle_mute),
        !p.audible(p.noise_solo, p.noise_mute),
        !p.audible(p.dmc_solo, p.dmc_mute),
        !p.audible(p.ext_solo, p.ext_mute),
{
}

} // verus!

verus! {

#[derive(Debug, Copy, Clone, PartialEq, Eq, Structural)]
pub enum SequenceMode {
    FourStep,
    FiveStep,
}

/// The CPU cycles at which the frame sequencer steps, the last one ending
/// the sequence.
pub open spec fn sequence_steps(region: Region, mode: SequenceMode) -> Seq<u32> {
    match (mode, region) {
        (SequenceMode::FourStep, Region::Ntsc) => FOUR_STEP_SEQ_NTSC@,
        (SequenceMode::FourStep, Region::Pal) => FOUR_STEP_SEQ_PAL@,
        (SequenceMode::FiveStep, Region::Ntsc) => FIVE_STEP_SEQ_NTSC@,
        (SequenceMode::FiveStep, Region::Pal) => FIVE_STEP_SEQ_PAL@,
    }
}

/// Quarter-frame clocks (envelopes, linear counter) come on the first
/// four steps, half-frame clocks (length counters, sweeps) on the second
/// and fourth.
pub open spec fn frame_snapshot(steps: Seq<u32>, frame_counter: u32) -> ApuSnapshot {
    ApuSnapshot {
        is_half_frame: frame_counter == steps[1] || frame_counter == steps[3],
        is_quarter_frame: frame_counter == steps[0] || frame_counter == steps[1] || frame_counter
            == steps[2] || frame_counter == steps[3],
    }
}

/// The status byte $4015 reads: the five channels' activity in bits 0-4,
/// the open bus's bit 5, the frame IRQ in bit 6 and the DMC IRQ in bit 7.
pub open spec fn status_byte(
    open_bus: u8,
    active: (bool, bool, bool, bool, bool),
    frame_irq: bool,
    dmc_irq: bool,
) -> u8 {
    ((if open_bus & 0x20 != 0 { 0x20int } else { 0 }) + (if active.0 { 1int } else { 0 }) + (if active.1 {
        2int
    } else {
        0
    }) + (if active.2 { 4int } else { 0 }) + (if active.3 { 8int } else { 0 }) + (if active.4 {
        0x10int
    } else {
        0
    }) + (if frame_irq { 0x40int } else { 0 }) + (if dmc_irq { 0x80int } else { 0 })) as u8
}

/// The six channel levels of one APU cycle, after solo and mute.
#[derive(Debug, Copy, Clone, PartialEq, Eq, Structural)]
pub struct ApuLevels {
    pub pulse_1: u8,
    pub pulse_2: u8,
    pub triangle: u8,
    pub noise: u8,
    pub dmc: u8,
    pub ext: i16,
}

/// The audio unit: five channels, the frame sequencer that clocks their
/// envelopes and counters and raises the frame IRQ, and the status and
/// control registers.
pub struct Apu {
    region: Region,
    pub pulse_one: Pulse,
    pub pulse_two: Pulse,
    pub triangle: Triangle,
    pub noise: Noise,
    pub dmc: Dmc,
    current_tick: u32,
    reset_delay: u32,
    frame_counter: u32,
    sequence_mode: SequenceMode,
    irq_inhibit: bool,
    irq: bool,
    irq_flag: bool,
    irq_flag_read: bool,
    last_4017: u8,
    oam_req: Option<u8>,
    playback: ChannelPlayback,
    mixer: I16LutMixer,
    samples: RingBuf<i16>,
}

impl Apu {
    pub closed spec fn pulse1(&self) -> Pulse {
        self.pulse_one
    }

    pub closed spec fn pulse2(&self) -> Pulse {
        self.pulse_two
    }

    pub closed spec fn tri(&self) -> Triangle {
        self.triangle
    }

    pub closed spec fn noise_ch(&self) -> Noise {
        self.noise
    }

    pub closed spec fn dmc_ch(&self) -> Dmc {
        self.dmc
    }

    pub closed spec fn spec_region(&self) -> Region {
        self.region
    }

    pub closed spec fn mode(&self) -> SequenceMode {
        self.sequence_mode
    }

    pub closed spec fn steps(&self) -> Seq<u32> {
        sequence_steps(self.region, self.sequence_mode)
    }

    pub closed spec fn frame_counter(&self) -> u32 {
        self.frame_counter
    }

    /// Cycle count (its parity times $4017 writes) and the pending
    /// sequencer reset.
    pub closed spec fn timing(&self) -> (u32, u32) {
        (self.current_tick, self.reset_delay)
    }

    /// The IRQ line, the flag $4015 reports, whether the flag was read,
    /// and the inhibit bit.
    pub closed spec fn irq_state(&self) -> (bool, bool, bool, bool) {
        (self.irq, self.irq_flag, self.irq_flag_read, self.irq_inhibit)
    }

    pub closed spec fn spec_oam_req(&self) -> Option<u8> {
        self.oam_req
    }

    pub closed spec fn spec_playback(&self) -> ChannelPlayback {
        self.playback
    }

    pub closed spec fn last_4017(&self) -> u8 {
        self.last_4017
    }

    /// The channels run in lockstep and the pulses are well formed.
    pub closed spec fn wf(&self) -> bool {
        &&& self.pulse_one.wf()
        &&& self.pulse_two.wf()
        &&& self.pulse1().spec_channel() == PulseChannel::InternalOne
        &&& self.pulse2().spec_channel() == PulseChannel::InternalTwo
        &&& self.pulse_two.ticks() == self.pulse_one.ticks()
        &&& self.triangle.ticks() == self.pulse_one.ticks()
        &&& self.noise.ticks() == self.pulse_one.ticks()
        &&& self.dmc.ticks() == self.pulse_one.ticks()
        &&& self.noise.wf()
        &&& self.dmc.spec_output() <= 127
        &&& self.samples.wf()
        &&& self.samples.spec_capacity() >= 1
    }

    /// The mixed samples not yet taken, oldest first.
    pub closed spec fn sample_queue(&self) -> Seq<i16> {
        self.samples.contents()
    }

    /// Slots of the sample buffer; it holds one sample fewer.
    pub closed spec fn sample_capacity(&self) -> nat {
        self.samples.spec_capacity()
    }

    /// Everything but the five channels and the sample buffer agrees.
    pub closed spec fn same_but_audio(&self, other: &Apu) -> bool {
        *self == (Apu {
            pulse_one: self.pulse_one,
            pulse_two: self.pulse_two,
            triangle: self.triangle,
            noise: self.noise,
            dmc: self.dmc,
            samples: self.samples,
            ..*other
        })
    }

    /// CPU cycles run so far.
    pub closed spec fn ticks(&self) -> u64 {
        self.pulse_one.ticks()
    }

    /// The sequencer part of one cycle: the cycle count advances, the frame
    /// counter steps (wrapping at the end of the sequence), the four-step
    /// sequence raises the frame IRQ on its last two cycles and its first,
    /// a read flag is cleared on odd cycles, and a pending reset restarts
    /// the sequence when its delay runs out.
    pub closed spec fn sequenced(self) -> Apu {
        self.advanced().settled()
    }

    /// The cycle count and frame counter step; the four-step sequence
    /// raises the frame IRQ (unless inhibited) and its flag.
    pub closed spec fn advanced(self) -> Apu {
        let tick = self.current_tick.wrapping_add(1);
        let steps = self.steps();
        let fc0 = self.frame_counter.wrapping_add(1);
        let fc = if fc0 == steps[4] { 0 } else { fc0 };
        let (irq, irq_flag, irq_flag_read) = if self.sequence_mode is FiveStep {
            (self.irq, self.irq_flag, self.irq_flag_read)
        } else if fc == steps[3] - 1 || fc == steps[3] {
            (self.irq || !self.irq_inhibit, true, false)
        } else if fc == 0 {
            let i = self.irq || !self.irq_inhibit;
            (i, i, false)
        } else {
            (self.irq, self.irq_flag, self.irq_flag_read)
        };
        Apu { current_tick: tick, frame_counter: fc, irq, irq_flag, irq_flag_read, ..self }
    }

    /// A read flag is cleared on odd cycles, and a pending reset restarts
    /// the sequence when its delay runs out.
    pub closed spec fn settled(self) -> Apu {
        let (irq_flag, irq_flag_read) = if self.irq_flag && self.irq_flag_read
            && self.current_tick % 2 == 1 {
            (false, false)
        } else {
            (self.irq_flag, self.irq_flag_read)
        };
        let (reset_delay, fc) = if self.reset_delay != 0 {
            let d = (self.reset_delay - 1) as u32;
            (d, if d == 0 { 0 } else { self.frame_counter })
        } else {
            (0u32, self.frame_counter)
        };
        Apu { frame_counter: fc, irq_flag, irq_flag_read, reset_delay, ..self }
    }

    /// Everything but the five channels agrees.
    pub closed spec fn same_but_channels(&self, other: &Apu) -> bool {
        *self == (Apu {
            pulse_one: self.pulse_one,
            pulse_two: self.pulse_two,
            triangle: self.triangle,
            noise: self.noise,
            dmc: self.dmc,
            ..*other
        })
    }

    /// The channels as the region sets them up, a four-step sequence six
    /// cycles in, everything audible.
    pub fn new(region: Region) -> (r: Apu)
        ensures
            r.wf(),
            r.ticks() == 0,
            r.spec_region() == region,
            r.mode() == SequenceMode::FourStep,
            r.frame_counter() == 6,
            r.timing() == (0u32, 0u32),
            r.irq_state() == (false, false, false, false),
            r.spec_oam_req() is None,
            r.last_4017() == 0,
            r.spec_playback() == ChannelPlayback::spec_new(),
            r.sample_queue() == Seq::<i16>::empty(),
            r.sample_capacity() == match region {
                Region::Ntsc => 59562nat,
                Region::Pal => 66496nat,
            },
    {
        // Two frames of CPU cycles, rounded up: 29780.5 cycles per NTSC
        // frame, 33247.5 per PAL frame.
        let capacity: usize = match region {
            Region::Ntsc => 59562,
            Region::Pal => 66496,
        };
        Apu {
            region,
            pulse_one: Pulse::new(PulseChannel::InternalOne),
            pulse_two: Pulse::new(PulseChannel::InternalTwo),
            triangle: Triangle::new(),
            noise: Noise::new(region),
            dmc: Dmc::new(region),
            current_tick: 0,
            reset_delay: 0,
            frame_counter: 6,
            sequence_mode: SequenceMode::FourStep,
            irq_inhibit: false,
            irq: false,
            irq_flag: false,
            irq_flag_read: false,
            last_4017: 0,
            oam_req: None,
            playback: ChannelPlayback::new(),
            mixer: I16LutMixer::default(),
            samples: RingBuf::new(capacity, 0),
        }
    }

    /// Clears the four tone channels' registers, silences everything,
    /// selects the four-step sequence and runs two cycles.
    pub fn power(&mut self)
        requires
            old(self).wf(),
            old(self).ticks() < u64::MAX - 1,
        ensures
            final(self).wf(),
            final(self).ticks() == old(self).ticks() + 2,
            final(self).mode() == SequenceMode::FourStep,
    {
        let mut a: u16 = 0;
        while a < 4
            invariant
                a <= 4,
                self.wf(),
                self.ticks() == old(self).ticks(),
            decreases 4 - a,
        {
            self.pulse_one.write(a, 0);
            self.pulse_two.write(a, 0);
            self.noise.write(a, 0);
            self.triangle.write(a, 0);
            a = a + 1;
        }
        proof {
            crate::bits::lemma_u8(0);
        }
        self.write(0x4015, 0);
        self.write(0x4017, 0);
        let mut until = Frames(1);
        self.tick(&mut until, 0);
        self.tick(&mut until, 0);
    }

    /// Silences every channel, selects the four-step sequence and runs two
    /// cycles.
    pub fn reset(&mut self)
        requires
            old(self).wf(),
            old(self).ticks() < u64::MAX - 1,
        ensures
            final(self).wf(),
            final(self).ticks() == old(self).ticks() + 2,
            final(self).mode() == SequenceMode::FourStep,
    {
        proof {
            crate::bits::lemma_u8(0);
        }
        self.write(0x4015, 0);
        self.write(0x4017, 0);
        let mut until = Frames(1);
        self.tick(&mut until, 0);
        self.tick(&mut until, 0);
    }

    fn status(&self, open_bus: u8, frame_irq: bool) -> (r: u8)
        ensures
            r == status_byte(
                open_bus,
                (
                    self.pulse1().spec_length_counter() > 0,
                    self.pulse2().spec_length_counter() > 0,
                    self.tri().spec_length_counter() > 0,
                    self.noise_ch().spec_length_counter() > 0,
                    self.dmc_ch().spec_bytes_remaining() > 0,
                ),
                frame_irq,
                self.dmc_ch().spec_irq(),
            ),
    {
        let mut val: u8 = if open_bus & 0x20 != 0 {
            0x20
        } else {
            0
        };
        if self.pulse_one.get_state() {
            val = val + 0x01;
        }
        if self.pulse_two.get_state() {
            val = val + 0x02;
        }
        if self.triangle.get_state() {
            val = val + 0x04;
        }
        if self.noise.get_state() {
            val = val + 0x08;
        }
        if self.dmc.get_state() {
            val = val + 0x10;
        }
        if frame_irq {
            val = val + 0x40;
        }
        if self.dmc.get_irq() {
            val = val + 0x80;
        }
        val
    }

    /// What a read would return, without acknowledging anything: the
    /// status byte at $4015 (with the frame IRQ line), else the open bus.
    pub fn peek(&self, addr: u16, open_bus: u8) -> (r: u8)
        ensures
            addr == 0x4015 ==> r == status_byte(
                open_bus,
                (
                    self.pulse1().spec_length_counter() > 0,
                    self.pulse2().spec_length_counter() > 0,
                    self.tri().spec_length_counter() > 0,
                    self.noise_ch().spec_length_counter() > 0,
                    self.dmc_ch().spec_bytes_remaining() > 0,
                ),
                self.irq_state().0,
                self.dmc_ch().spec_irq(),
            ),
            addr != 0x4015 ==> r == open_bus,
    {
        if addr == 0x4015 {
            self.status(open_bus, self.irq)
        } else {
            open_bus
        }
    }

    /// Reading $4015 returns the status byte (with the frame IRQ flag),
    /// drops the frame IRQ line and marks the flag read.
    pub fn read(&mut self, addr: u16, open_bus: u8) -> (r: u8)
        ensures
            addr == 0x4015 ==> r == status_byte(
                open_bus,
                (
                    old(self).pulse1().spec_length_counter() > 0,
                    old(self).pulse2().spec_length_counter() > 0,
                    old(self).tri().spec_length_counter() > 0,
                    old(self).noise_ch().spec_length_counter() > 0,
                    old(self).dmc_ch().spec_bytes_remaining() > 0,
                ),
                old(self).irq_state().1,
                old(self).dmc_ch().spec_irq(),
            ) && final(self).irq_state() == (
                false,
                old(self).irq_state().1,
                true,
                old(self).irq_state().3,
            ) && final(self).same_but_irq(&*old(self)),
            addr != 0x4015 ==> r == open_bus && *final(self) == *old(self),
    {
        if addr == 0x4015 {
            let val = self.status(open_bus, self.irq_flag);
            self.irq = false;
            self.irq_flag_read = true;
            val
        } else {
            open_bus
        }
    }

    /// Everything but the IRQ line and flag-read mark agrees.
    pub closed spec fn same_but_irq(&self, other: &Apu) -> bool {
        *self == (Apu { irq: self.irq, irq_flag_read: self.irq_flag_read, ..*other })
    }

    /// $4014 requests an OAM DMA of a page; $4015 enables or silences each
    /// channel by its bit; $4017 selects the sequence mode and IRQ inhibit
    /// (inhibit drops the frame IRQ), clocks the counters at once in
    /// five-step mode, and restarts the sequence 3 or 4 cycles later by
    /// the cycle's parity.
    pub fn write(&mut self, addr: u16, value: u8)
        requires
            old(self).wf(),
            addr == 0x4014 || addr == 0x4015 || addr == 0x4017,
        ensures
            final(self).wf(),
            final(self).ticks() == old(self).ticks(),
            addr == 0x4014 ==> *final(self) == old(self).oam_requested(value),
            addr == 0x4015 ==> {
                &&& final(self).same_but_channels(&*old(self))
                &&& final(self).pulse1().spec_enabled() == (value & 0x01 != 0)
                &&& final(self).pulse2().spec_enabled() == (value & 0x02 != 0)
                &&& final(self).tri().spec_enabled() == (value & 0x04 != 0)
                &&& final(self).noise_ch().spec_enabled() == (value & 0x08 != 0)
                &&& value & 0x01 == 0 ==> final(self).pulse1().spec_length_counter() == 0
                &&& value & 0x02 == 0 ==> final(self).pulse2().spec_length_counter() == 0
                &&& value & 0x04 == 0 ==> final(self).tri().spec_length_counter() == 0
                &&& value & 0x08 == 0 ==> final(self).noise_ch().spec_length_counter() == 0
                &&& value & 0x10 == 0 ==> final(self).dmc_ch().spec_bytes_remaining() == 0
                &&& !final(self).dmc_ch().spec_irq()
                &&& final(self).pulse1() == old(self).pulse1().switched(value & 0x01 != 0)
                &&& final(self).pulse2() == old(self).pulse2().switched(value & 0x02 != 0)
                &&& final(self).tri() == old(self).tri().switched(value & 0x04 != 0)
                &&& final(self).noise_ch() == old(self).noise_ch().switched(value & 0x08 != 0)
                &&& final(self).dmc_ch() == old(self).dmc_ch().switched(value & 0x10 != 0)
            },
            addr == 0x4017 ==> {
                &&& final(self).mode() == if value & 0x80 == 0 {
                    SequenceMode::FourStep
                } else {
                    SequenceMode::FiveStep
                }
                &&& final(self).last_4017() == value
                &&& final(self).irq_state() == if value & 0x40 != 0 {
                    (false, false, old(self).irq_state().2, true)
                } else {
                    (old(self).irq_state().0, old(self).irq_state().1, old(self).irq_state().2, false)
                }
                &&& final(self).timing() == (
                    old(self).timing().0,
                    if old(self).timing().0 % 2 == 0 { 3u32 } else { 4u32 },
                )
                &&& final(self).frame_counter() == old(self).frame_counter()
                &&& value & 0x80 != 0 ==> final(self).pulse1().spec_forced_clock()
                    && final(self).pulse2().spec_forced_clock()
                    && final(self).tri().spec_forced_clock()
                    && final(self).noise_ch().spec_forced_clock()
            },
    {
        if addr == 0x4014 {
            self.oam_req = Some(value);
        } else if addr == 0x4015 {
            self.write_status(value);
        } else {
            self.write_frame_control(value);
        }
    }

    fn switch_pulse_one(&mut self, on: bool)
        requires
            old(self).wf(),
        ensures
            final(self).pulse1() == old(self).pulse1().switched(on),
            final(self).wf(),
            final(self).ticks() == old(self).ticks(),
            final(self).same_but_channels(&*old(self)),
            final(self).pulse1().spec_enabled() == on,
            !on ==> final(self).pulse1().spec_length_counter() == 0,
            final(self).pulse2() == old(self).pulse2(),
            final(self).tri() == old(self).tri(),
            final(self).noise_ch() == old(self).noise_ch(),
            final(self).dmc_ch() == old(self).dmc_ch(),
    {
        if on {
            self.pulse_one.enable();
        } else {
            self.pulse_one.disable();
        }
    }

    fn switch_pulse_two(&mut self, on: bool)
        requires
            old(self).wf(),
        ensures
            final(self).pulse2() == old(self).pulse2().switched(on),
            final(self).wf(),
            final(self).ticks() == old(self).ticks(),
            final(self).same_but_channels(&*old(self)),
            final(self).pulse2().spec_enabled() == on,
            !on ==> final(self).pulse2().spec_length_counter() == 0,
            final(self).pulse1() == old(self).pulse1(),
            final(self).tri() == old(self).tri(),
            final(self).noise_ch() == old(self).noise_ch(),
            final(self).dmc_ch() == old(self).dmc_ch(),
    {
        if on {
            self.pulse_two.enable();
        } else {
            self.pulse_two.disable();
        }
    }

    fn switch_triangle(&mut self, on: bool)
        requires
            old(self).wf(),
        ensures
            final(self).tri() == old(self).tri().switched(on),
            final(self).wf(),
            final(self).ticks() == old(self).ticks(),
            final(self).same_but_channels(&*old(self)),
            final(self).tri().spec_enabled() == on,
            !on ==> final(self).tri().spec_length_counter() == 0,
            final(self).pulse1() == old(self).pulse1(),
            final(self).pulse2() == old(self).pulse2(),
            final(self).noise_ch() == old(self).noise_ch(),
            final(self).dmc_ch() == old(self).dmc_ch(),
    {
        if on {
            self.triangle.enable();
        } else {
            self.triangle.disable();
        }
    }

    fn switch_noise(&mut self, on: bool)
        requires
            old(self).wf(),
        ensures
            final(self).noise_ch() == old(self).noise_ch().switched(on),
            final(self).wf(),
            final(self).ticks() == old(self).ticks(),
            final(self).same_but_channels(&*old(self)),
            final(self).noise_ch().spec_enabled() == on,
            !on ==> final(self).noise_ch().spec_length_counter() == 0,
            final(self).pulse1() == old(self).pulse1(),
            final(self).pulse2() == old(self).pulse2(),
            final(self).tri() == old(self).tri(),
            final(self).dmc_ch() == old(self).dmc_ch(),
    {
        if on {
            self.noise.enable();
        } else {
            self.noise.disable();
        }
    }

    fn switch_dmc(&mut self, on: bool)
        requires
            old(self).wf(),
        ensures
            final(self).dmc_ch() == old(self).dmc_ch().switched(on),
            final(self).wf(),
            final(self).ticks() == old(self).ticks(),
            final(self).same_but_channels(&*old(self)),
            !on ==> final(self).dmc_ch().spec_bytes_remaining() == 0,
            !final(self).dmc_ch().spec_irq(),
            final(self).pulse1() == old(self).pulse1(),
            final(self).pulse2() == old(self).pulse2(),
            final(self).tri() == old(self).tri(),
            final(self).noise_ch() == old(self).noise_ch(),
    {
        if on {
            self.dmc.enable();
        } else {
            self.dmc.disable();
        }
    }

    fn write_status(&mut self, value: u8)
        requires
            old(self).wf(),
        ensures
            final(self).wf(),
            final(self).ticks() == old(self).ticks(),
            final(self).same_but_channels(&*old(self)),
            final(self).pulse1().spec_enabled() == (value & 0x01 != 0),
            final(self).pulse2().spec_enabled() == (value & 0x02 != 0),
            final(self).tri().spec_enabled() == (value & 0x04 != 0),
            final(self).noise_ch().spec_enabled() == (value & 0x08 != 0),
            value & 0x01 == 0 ==> final(self).pulse1().spec_length_counter() == 0,
            value & 0x02 == 0 ==> final(self).pulse2().spec_length_counter() == 0,
            value & 0x04 == 0 ==> final(self).tri().spec_length_counter() == 0,
            value & 0x08 == 0 ==> final(self).noise_ch().spec_length_counter() == 0,
            value & 0x10 == 0 ==> final(self).dmc_ch().spec_bytes_remaining() == 0,
            !final(self).dmc_ch().spec_irq(),
            final(self).pulse1() == old(self).pulse1().switched(value & 0x01 != 0),
            final(self).pulse2() == old(self).pulse2().switched(value & 0x02 != 0),
            final(self).tri() == old(self).tri().switched(value & 0x04 != 0),
            final(self).noise_ch() == old(self).noise_ch().switched(value & 0x08 != 0),
            final(self).dmc_ch() == old(self).dmc_ch().switched(value & 0x10 != 0),
    {
        self.switch_pulse_one(value & 0x01 != 0);
        self.switch_pulse_two(value & 0x02 != 0);
        self.switch_triangle(value & 0x04 != 0);
        self.switch_noise(value & 0x08 != 0);
        self.switch_dmc(value & 0x10 != 0);
    }

    fn write_frame_control(&mut self, value: u8)
        requires
            old(self).wf(),
        ensures
            final(self).wf(),
            final(self).ticks() == old(self).ticks(),
            final(self).mode() == if value & 0x80 == 0 {
                SequenceMode::FourStep
            } else {
                SequenceMode::FiveStep
            },
            final(self).last_4017() == value,
            final(self).irq_state() == if value & 0x40 != 0 {
                (false, false, old(self).irq_state().2, true)
            } else {
                (old(self).irq_state().0, old(self).irq_state().1, old(self).irq_state().2, false)
            },
            final(self).timing() == (
                old(self).timing().0,
                if old(self).timing().0 % 2 == 0 { 3u32 } else { 4u32 },
            ),
            final(self).frame_counter() == old(self).frame_counter(),
            value & 0x80 != 0 ==> final(self).pulse1().spec_forced_clock()
                && final(self).pulse2().spec_forced_clock() && final(self).tri().spec_forced_clock()
                && final(self).noise_ch().spec_forced_clock(),
    {
        self.last_4017 = value;
        self.sequence_mode = if value & 0x80 == 0 {
            SequenceMode::FourStep
        } else {
            SequenceMode::FiveStep
        };
        self.irq_inhibit = value & 0x40 != 0;
        if self.irq_inhibit {
            self.irq = false;
            self.irq_flag = false;
        }
        if value & 0x80 != 0 {
            self.forced_clock();
        }
        proof {
            crate::bits::lemma_u32(self.current_tick);
        }
        self.reset_delay = if self.current_tick & 1 == 0 {
            3
        } else {
            4
        };
    }

    /// The unit after a $4014 write.
    pub closed spec fn oam_requested(self, value: u8) -> Apu {
        Apu { oam_req: Some(value), ..self }
    }

    fn forced_clock(&mut self)
        requires
            old(self).wf(),
        ensures
            final(self).wf(),
            final(self).ticks() == old(self).ticks(),
            final(self).pulse1().spec_forced_clock(),
            final(self).pulse2().spec_forced_clock(),
            final(self).tri().spec_forced_clock(),
            final(self).noise_ch().spec_forced_clock(),
            final(self).same_but_channels(&*old(self)),
            final(self).dmc_ch() == old(self).dmc_ch(),
    {
        self.pulse_one.forced_clock();
        self.pulse_two.forced_clock();
        self.triangle.forced_clock();
        self.noise.forced_clock();
    }

    fn sequence_steps(&self) -> (r: [u32; 5])
        ensures
            r@ == self.steps(),
    {
        match self.sequence_mode {
            SequenceMode::FourStep => self.region.four_step_seq(),
            SequenceMode::FiveStep => self.region.five_step_seq(),
        }
    }

    pub fn is_quarter_frame(&self) -> (r: bool)
        ensures
            r == frame_snapshot(self.steps(), self.frame_counter()).is_quarter_frame,
    {
        let steps = self.sequence_steps();
        self.frame_counter == steps[0] || self.frame_counter == steps[1] || self.frame_counter
            == steps[2] || self.frame_counter == steps[3]
    }

    pub fn is_half_frame(&self) -> (r: bool)
        ensures
            r == frame_snapshot(self.steps(), self.frame_counter()).is_half_frame,
    {
        let steps = self.sequence_steps();
        self.frame_counter == steps[1] || self.frame_counter == steps[3]
    }

    fn snapshot(&self) -> (r: ApuSnapshot)
        ensures
            r == frame_snapshot(self.steps(), self.frame_counter()),
    {
        ApuSnapshot { is_half_frame: self.is_half_frame(), is_quarter_frame: self.is_quarter_frame() }
    }

    proof fn lemma_steps(&self)
        ensures
            self.steps().len() == 5,
            self.steps()[3] >= 1,
    {
        assert(FOUR_STEP_SEQ_NTSC@ =~= seq![7457u32, 14913, 22371, 29829, 29830]);
        assert(FOUR_STEP_SEQ_PAL@ =~= seq![8313u32, 16627, 24939, 33253, 33254]);
        assert(FIVE_STEP_SEQ_NTSC@ =~= seq![7457u32, 14913, 22371, 37281, 37282]);
        assert(FIVE_STEP_SEQ_PAL@ =~= seq![8313u32, 16627, 24939, 41565, 41566]);
    }

    fn sequence(&mut self)
        ensures
            *final(self) == old(self).sequenced(),
    {
        self.advance();
        self.settle();
    }

    fn advance(&mut self)
        ensures
            *final(self) == old(self).advanced(),
    {
        proof {
            self.lemma_steps();
        }
        let tick = self.current_tick.wrapping_add(1);
        let steps = self.sequence_steps();
        let mut fc = self.frame_counter.wrapping_add(1);
        if fc == steps[4] {
            fc = 0;
        }
        let (irq, irq_flag, irq_flag_read) = match self.sequence_mode {
            SequenceMode::FiveStep => (self.irq, self.irq_flag, self.irq_flag_read),
            SequenceMode::FourStep => {
                if fc == steps[3] - 1 || fc == steps[3] {
                    (self.irq || !self.irq_inhibit, true, false)
                } else if fc == 0 {
                    let i = self.irq || !self.irq_inhibit;
                    (i, i, false)
                } else {
                    (self.irq, self.irq_flag, self.irq_flag_read)
                }
            },
        };
        self.current_tick = tick;
        self.frame_counter = fc;
        self.irq = irq;
        self.irq_flag = irq_flag;
        self.irq_flag_read = irq_flag_read;
    }

    fn settle(&mut self)
        ensures
            *final(self) == old(self).settled(),
    {
        proof {
            crate::bits::lemma_u32(self.current_tick);
        }
        if self.irq_flag && self.irq_flag_read && self.current_tick & 1 == 1 {
            self.irq_flag = false;
            self.irq_flag_read = false;
        }
        if self.reset_delay != 0 {
            self.reset_delay = self.reset_delay - 1;
            if self.reset_delay == 0 {
                self.frame_counter = 0;
            }
        }
    }

    /// One CPU cycle: the sequencer steps, then each channel runs with the
    /// sequencer's clocks for this cycle, and the levels (with the
    /// cartridge's `ext` sample) pass through the solo and mute switches.
    #[verifier::spinoff_prover]
    #[verifier::rlimit(40)]
    pub fn tick<U: RunUntil>(&mut self, until: &mut U, ext: i16) -> (r: ApuLevels)
        requires
            old(self).wf(),
            old(self).ticks() < u64::MAX,
        ensures
            final(self).wf(),
            final(self).ticks() == old(self).ticks() + 1,
            *final(until) == old(until).counted(RunEvent::Sample),
            final(self).same_but_audio(&old(self).sequenced()),
            final(self).sample_capacity() == old(self).sample_capacity(),
            final(self).sample_queue() == after_push(
                old(self).sample_queue(),
                old(self).sample_capacity(),
                lut_mix(r.pulse_1, r.pulse_2, r.triangle, r.noise, r.dmc, r.ext),
            ),
            ({
                let s = old(self).sequenced();
                let snap = frame_snapshot(s.steps(), s.frame_counter());
                let p1 = s.pulse1().tick_post(snap);
                let p2 = s.pulse2().tick_post(snap);
                let t = s.tri().tick_post(snap);
                let n = s.noise_ch().tick_post(snap);
                let d = s.dmc_ch().tick_post();
                let pb = s.spec_playback();
                &&& final(self).pulse1() == p1.0
                &&& final(self).pulse2() == p2.0
                &&& final(self).tri() == t.0
                &&& final(self).noise_ch() == n.0
                &&& final(self).dmc_ch() == d.0
                &&& r == ApuLevels {
                    pulse_1: if pb.audible(pb.pulse_1_solo, pb.pulse_1_mute) { p1.1 } else { 0 },
                    pulse_2: if pb.audible(pb.pulse_2_solo, pb.pulse_2_mute) { p2.1 } else { 0 },
                    triangle: if pb.audible(pb.triangle_solo, pb.triangle_mute) { t.1 } else { 0 },
                    noise: if pb.audible(pb.noise_solo, pb.noise_mute) { n.1 } else { 0 },
                    dmc: if pb.audible(pb.dmc_solo, pb.dmc_mute) { d.1 } else { 0 },
                    ext: if pb.audible(pb.ext_solo, pb.ext_mute) { ext } else { 0 },
                }
            }),
    {
        self.sequence();
        let snapshot = self.snapshot();
        proof {
            lemma_pulse_can_tick(&self.pulse_one);
            lemma_pulse_can_tick(&self.pulse_two);
            lemma_triangle_can_tick(&self.triangle);
            lemma_noise_can_tick(&self.noise);
            lemma_dmc_can_tick(&self.dmc);
            lemma_pulse_level(self.pulse_one, snapshot);
            lemma_pulse_level(self.pulse_two, snapshot);
            lemma_triangle_output(self.triangle, snapshot);
        }
        let pulse_1 = self.pulse_one.tick(snapshot);
        let pulse_2 = self.pulse_two.tick(snapshot);
        let triangle = self.triangle.tick(snapshot);
        let noise = self.noise.tick(snapshot);
        let dmc = self.dmc.tick(snapshot);
        let levels = ApuLevels {
            pulse_1: self.playback.pulse_1(pulse_1),
            pulse_2: self.playback.pulse_2(pulse_2),
            triangle: self.playback.triangle(triangle),
            noise: self.playback.noise(noise),
            dmc: self.playback.dmc(dmc),
            ext: self.playback.ext(ext),
        };
        let sample = self.mixer.mix(
            levels.pulse_1,
            levels.pulse_2,
            levels.triangle,
            levels.noise,
            levels.dmc,
            levels.ext,
        );
        self.samples.push(sample);
        until.add_sample();
        levels
    }

    /// Drains the mixed samples, oldest first.
    pub fn samples(&mut self) -> (r: Vec<i16>)
        requires
            old(self).wf(),
        ensures
            final(self).wf(),
            r@ == old(self).sample_queue(),
            final(self).sample_queue() == Seq::<i16>::empty(),
            final(self).sample_capacity() == old(self).sample_capacity(),
            final(self).same_but_samples(&*old(self)),
    {
        self.samples.iter()
    }

    /// Takes the mixed samples as a double-ended iterator, oldest first.
    pub fn take_samples(&mut self) -> (r: RingIter<i16>)
        requires
            old(self).wf(),
        ensures
            final(self).wf(),
            r.wf(),
            r.remaining() == old(self).sample_queue(),
            final(self).sample_queue() == Seq::<i16>::empty(),
            final(self).sample_capacity() == old(self).sample_capacity(),
            final(self).same_but_samples(&*old(self)),
    {
        self.samples.take_iter()
    }

    /// Everything but the sample buffer agrees.
    pub closed spec fn same_but_samples(&self, other: &Apu) -> bool {
        *self == (Apu { samples: self.samples, ..*other })
    }

    /// The IRQ line: the frame IRQ or the DMC's.
    pub fn get_irq(&self) -> (r: bool)
        ensures
            r == (self.irq_state().0 || self.dmc_ch().spec_irq()),
    {
        self.irq || self.dmc.get_irq()
    }

    /// Takes the DMC's pending sample fetch.
    pub fn get_dmc_req(&mut self) -> (r: Option<DmcDmaKind>)
        requires
            old(self).wf(),
        ensures
            final(self).wf(),
            final(self).ticks() == old(self).ticks(),
            r == old(self).dmc_ch().spec_dmc_req(),
            final(self).dmc_ch().spec_dmc_req() is None,
            final(self).same_but_channels(&*old(self)),
    {
        self.dmc.get_dmc_req()
    }

    /// Takes the pending OAM DMA page.
    pub fn get_oam_req(&mut self) -> (r: Option<u8>)
        ensures
            r == old(self).spec_oam_req(),
            *final(self) == old(self).oam_taken(),
    {
        self.oam_req.take()
    }

    /// The unit with no OAM DMA pending.
    pub closed spec fn oam_taken(self) -> Apu {
        Apu { oam_req: None, ..self }
    }

    pub fn set_channel_playback(&mut self, playback: ChannelPlayback)
        ensures
            final(self).spec_playback() == playback,
            *final(self) == old(self).with_playback(playback),
    {
        self.playback = playback;
    }

    pub closed spec fn with_playback(self, playback: ChannelPlayback) -> Apu {
        Apu { playback, ..self }
    }

    /// The status register for reads; $4014, $4015 and $4017 for writes;
    /// then the channels' registers.
    pub fn register(&self, cpu: &mut AddressBus)
        requires
            self.wf(),
        ensures
            final(cpu).reads() == old(cpu).reads().push(
                (MappingFn::AndEqualsAndMask(AndEqualsAndMask(0xf01f, 0x4015, 0x4015)), DeviceKind::Apu),
            ),
            final(cpu).writes() == old(cpu).writes().push(
                (MappingFn::Address(Address(0x4014)), DeviceKind::Apu),
            ).push((MappingFn::Address(Address(0x4015)), DeviceKind::Apu)).push(
                (MappingFn::Address(Address(0x4017)), DeviceKind::Apu),
            ).push(
                (MappingFn::AndEqualsAndMask(AndEqualsAndMask(0xfffc, 0x4000, 0x3)), DeviceKind::PulseOne),
            ).push(
                (MappingFn::AndEqualsAndMask(AndEqualsAndMask(0xfffc, 0x4004, 0x3)), DeviceKind::PulseTwo),
            ).push(
                (MappingFn::AndEqualsAndMask(AndEqualsAndMask(0xfffc, 0x4008, 0x3)), DeviceKind::Triangle),
            ).push(
                (MappingFn::AndEqualsAndMask(AndEqualsAndMask(0xfffc, 0x400c, 0x3)), DeviceKind::Noise),
            ).push((MappingFn::AndEqualsAndMask(AndEqualsAndMask(0xfffc, 0x4010, 0x3)), DeviceKind::Dmc)),
    {
        cpu.register_read(DeviceKind::Apu, AndEqualsAndMask(0xf01f, 0x4015, 0x4015).into());
        cpu.register_write(DeviceKind::Apu, Address(0x4014).into());
        cpu.register_write(DeviceKind::Apu, Address(0x4015).into());
        cpu.register_write(DeviceKind::Apu, Address(0x4017).into());
        self.pulse_one.register(cpu);
        self.pulse_two.register(cpu);
        self.triangle.register(cpu);
        self.noise.register(cpu);
        self.dmc.register(cpu);
    }
}

} // verus!

verus! {

/// The frame IRQ line never rises while the IRQ is inhibited, nor in
/// five-step mode.
pub proof fn lemma_frame_irq_quiet(a: Apu)
    requires
        !a.irq_state().0,
        a.irq_state().3 || a.mode() == SequenceMode::FiveStep,
    ensures
        !a.sequenced().irq_state().0,
{
}

/// In four-step mode with the IRQ allowed and no restart pending, the
/// cycle that brings the frame counter to one before the last step raises
/// the frame IRQ line and its flag.
pub proof fn lemma_frame_irq_raised(a: Apu)
    requires
        a.mode() == SequenceMode::FourStep,
        !a.irq_state().3,
        a.timing().1 == 0,
        a.frame_counter() + 2 == a.steps()[3],
    ensures
        a.sequenced().irq_state().0,
        a.sequenced().frame_counter() == a.steps()[3] - 1,
{
    a.lemma_steps();
    assert(FOUR_STEP_SEQ_NTSC@ =~= seq![7457u32, 14913, 22371, 29829, 29830]);
    assert(FOUR_STEP_SEQ_PAL@ =~= seq![8313u32, 16627, 24939, 33253, 33254]);
}

} // verus!

verus! {

/// The pulse mixer's output for the sum of the two pulse levels: the
/// non-linear DAC curve 95.52 / (8128 / n + 100), scaled to the full i16
/// range and rounded.
pub const PULSE_TABLE: [i16; 32] = [
    0, 380, 752, 1114, 1468, 1814, 2152, 2482, 2805, 3120, 3429, 3731, 4026, 4316, 4599, 4876,
    5148, 5414, 5675, 5930, 6181, 6426, 6667, 6903, 7135, 7362, 7586, 7805, 8020, 8231, 8438,
    8642
];

/// The triangle / noise / DMC mixer's output for 3 * triangle + 2 * noise
/// + DMC: the curve 163.67 / (24329 / n + 100), scaled to the full i16
/// range and rounded.
pub const TND_TABLE: [i16; 204] = [
    0, 220, 437, 653, 867, 1080, 1291, 1500, 1707, 1913, 2117, 2320, 2521, 2720, 2918, 3115,
    3309, 3503, 3694, 3885, 4074, 4261, 4447, 4632, 4815, 4997, 5178, 5357, 5535, 5712, 5887,
    6061, 6234, 6406, 6576, 6745, 6913, 7079, 7245, 7409, 7572, 7734, 7895, 8055, 8214, 8371,
    8528, 8683, 8837, 8991, 9143, 9294, 9444, 9593, 9741, 9888, 10035, 10180, 10324, 10467,
    10610, 10751, 10891, 11031, 11170, 11307, 11444, 11580, 11715, 11849, 11983, 12115, 12247,
    12378, 12508, 12637, 12765, 12893, 13020, 13146, 13271, 13395, 13519, 13642, 13764, 13886,
    14006, 14126, 14246, 14364, 14482, 14599, 14715, 14831, 14946, 15061, 15174, 15287, 15400,
    15511, 15622, 15733, 15842, 15952, 16060, 16168, 16275, 16382, 16488, 16593, 16698, 16802,
    16906, 17009, 17112, 17213, 17315, 17416, 17516, 17616, 17715, 17813, 17911, 18009, 18106,
    18202, 18298, 18394, 18489, 18583, 18677, 18770, 18863, 18955, 19047, 19139, 19230, 19320,
    19410, 19500, 19589, 19677, 19765, 19853, 19940, 20027, 20113, 20199, 20285, 20370, 20454,
    20538, 20622, 20705, 20788, 20871, 20953, 21034, 21116, 21196, 21277, 21357, 21437, 21516,
    21595, 21673, 21751, 21829, 21906, 21983, 22060, 22136, 22212, 22287, 22362, 22437, 22511,
    22586, 22659, 22733, 22806, 22878, 22950, 23022, 23094, 23165, 23236, 23307, 23377, 23447,
    23517, 23586, 23655, 23724, 23792, 23860, 23928, 23996, 24063, 24130, 24196, 24262, 24328,
    24394
];

/// A sample format the audio unit can produce, with its mixer.
pub trait Sample: Copy {
    type Mixer: SampleMixer<Self>;
}

/// Combines the five channel levels and the cartridge's sample into one
/// output sample.
pub trait SampleMixer<S> {
    fn mix(&self, pulse_1: u8, pulse_2: u8, triangle: u8, noise: u8, dmc: u8, ext: i16) -> S
        requires
            pulse_1 < 16 && pulse_2 < 16 && triangle < 16 && noise < 16 && dmc < 128,
    ;
}

impl Sample for i16 {
    type Mixer = I16LutMixer;
}

/// The mixed sample: the cartridge's sample minus the two mixer curves'
/// outputs, wrapping at the i16 range.
pub open spec fn lut_mix(pulse_1: u8, pulse_2: u8, triangle: u8, noise: u8, dmc: u8, ext: i16) -> i16 {
    ext.wrapping_sub(
        (PULSE_TABLE@[pulse_1 + pulse_2] + TND_TABLE@[3 * triangle + 2 * noise + dmc]) as i16,
    )
}

/// Mixes through the two lookup tables.
pub struct I16LutMixer {
    pulse_table: [i16; 32],
    tnd_table: [i16; 204],
}

impl I16LutMixer {
    #[verifier::type_invariant]
    closed spec fn inv(&self) -> bool {
        self.pulse_table@ == PULSE_TABLE@ && self.tnd_table@ == TND_TABLE@
    }
}

impl Default for I16LutMixer {
    fn default() -> (r: Self) {
        I16LutMixer { pulse_table: PULSE_TABLE, tnd_table: TND_TABLE }
    }
}

proof fn lemma_tables_bounded()
    ensures
        forall|i: int| 0 <= i < 32 ==> 0 <= #[trigger] PULSE_TABLE@[i] <= 8642,
        forall|i: int| 0 <= i < 204 ==> 0 <= #[trigger] TND_TABLE@[i] <= 24394,
{
    assert(PULSE_TABLE@ =~= seq![
        0i16, 380, 752, 1114, 1468, 1814, 2152, 2482, 2805, 3120, 3429, 3731, 4026, 4316, 4599,
    4876, 5148, 5414, 5675, 5930, 6181, 6426, 6667, 6903, 7135, 7362, 7586, 7805, 8020, 8231,
    8438, 8642
    ]);
    assert(TND_TABLE@ =~= seq![
        0i16, 220, 437, 653, 867, 1080, 1291, 1500, 1707, 1913, 2117, 2320, 2521, 2720, 2918, 3115,
    3309, 3503, 3694, 3885, 4074, 4261, 4447, 4632, 4815, 4997, 5178, 5357, 5535, 5712, 5887,
    6061, 6234, 6406, 6576, 6745, 6913, 7079, 7245, 7409, 7572, 7734, 7895, 8055, 8214, 8371,
    8528, 8683, 8837, 8991, 9143, 9294, 9444, 9593, 9741, 9888, 10035, 10180, 10324, 10467,
    10610, 10751, 10891, 11031, 11170, 11307, 11444, 11580, 11715, 11849, 11983, 12115, 12247,
    12378, 12508, 12637, 12765, 12893, 13020, 13146, 13271, 13395, 13519, 13642, 13764, 13886,
    14006, 14126, 14246, 14364, 14482, 14599, 14715, 14831, 14946, 15061, 15174, 15287, 15400,
    15511, 15622, 15733, 15842, 15952, 16060, 16168, 16275, 16382, 16488, 16593, 16698, 16802,
    16906, 17009, 17112, 17213, 17315, 17416, 17516, 17616, 17715, 17813, 17911, 18009, 18106,
    18202, 18298, 18394, 18489, 18583, 18677, 18770, 18863, 18955, 19047, 19139, 19230, 19320,
    19410, 19500, 19589, 19677, 19765, 19853, 19940, 20027, 20113, 20199, 20285, 20370, 20454,
    20538, 20622, 20705, 20788, 20871, 20953, 21034, 21116, 21196, 21277, 21357, 21437, 21516,
    21595, 21673, 21751, 21829, 21906, 21983, 22060, 22136, 22212, 22287, 22362, 22437, 22511,
    22586, 22659, 22733, 22806, 22878, 22950, 23022, 23094, 23165, 23236, 23307, 23377, 23447,
    23517, 23586, 23655, 23724, 23792, 23860, 23928, 23996, 24063, 24130, 24196, 24262, 24328,
    24394
    ]);
}

impl SampleMixer<i16> for I16LutMixer {
    #[verifier::spinoff_prover]
    #[verifier::rlimit(40)]
    fn mix(&self, pulse_1: u8, pulse_2: u8, triangle: u8, noise: u8, dmc: u8, ext: i16) -> (r: i16)
        ensures
            r == lut_mix(
                pulse_1,
                pulse_2,
                triangle,
                noise,
                dmc,
                ext,
            ),
    {
        proof {
            use_type_invariant(self);
            lemma_tables_bounded();
        }
        let pulse_out = self.pulse_table[(pulse_1 + pulse_2) as usize];
        let tnd_out = self.tnd_table[(3 * triangle + 2 * noise + dmc) as usize];
        ext.wrapping_sub(pulse_out + tnd_out)
    }
}

} // verus!
