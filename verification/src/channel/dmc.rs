//! Delta modulation channel: plays 1-bit delta samples fetched from CPU
//! memory by DMA, with looping and an end-of-sample IRQ.
use vstd::prelude::*;

use crate::apu::ApuSnapshot;
use crate::bits::{lemma_u8, lemma_u8_pair};
use crate::bus::{AddressBus, AndEqualsAndMask, DeviceKind, MappingFn};
use crate::channel::Channel;
use crate::cpu::dma::DmcDmaKind;
use crate::region::{lemma_rates_positive, Region};

verus! {

/// The output level after one delta bit: up or down by two, clamped to
/// the 7-bit range.
pub open spec fn delta_step(level: u8, bit_set: bool) -> u8 {
    if bit_set {
        if level <= 125 { (level + 2) as u8 } else { level }
    } else {
        if level >= 2 { (level - 2) as u8 } else { level }
    }
}

pub struct Dmc {
    region: Region,
    current_tick: u64,
    timer_counter: u16,
    sample_buffer: u8,
    sample_buffer_empty: bool,
    address_counter: u16,
    bytes_remaining: u16,
    output_value: u8,
    output_shifter: u8,
    bits_remaining: u8,
    read_pending: bool,
    irq: bool,
    silence: bool,
    regs: [u8; 4],
    dmc_req: Option<DmcDmaKind>,
}

impl Dmc {
    /// The channel after $4015 turns it on (`on`) or off. On: an idle
    /// channel (no bytes left) restarts at the sample address with the
    /// sample length, and with the buffer empty and no read pending the
    /// first byte is requested. Off: no bytes left. Either way the IRQ
    /// flag drops; nothing else changes.
    pub closed spec fn switched(self, on: bool) -> Self {
        if on {
            let s1 = if self.bytes_remaining == 0 {
                Dmc {
                    bytes_remaining: self.spec_sample_length(),
                    address_counter: self.spec_sample_address(),
                    ..self
                }
            } else {
                self
            };
            let s2 = if !s1.read_pending && s1.sample_buffer_empty && s1.bytes_remaining != 0 {
                Dmc { read_pending: true, dmc_req: Some(DmcDmaKind::Load(s1.address_counter)), ..s1 }
            } else {
                s1
            };
            Dmc { irq: false, ..s2 }
        } else {
            Dmc { bytes_remaining: 0, irq: false, ..self }
        }
    }

    /// CPU cycles the channel has run.
    pub closed spec fn ticks(&self) -> u64 {
        self.current_tick
    }

    pub closed spec fn spec_region(&self) -> Region {
        self.region
    }

    pub closed spec fn spec_regs(&self) -> Seq<u8> {
        self.regs@
    }

    pub closed spec fn spec_irq(&self) -> bool {
        self.irq
    }

    pub closed spec fn spec_dmc_req(&self) -> Option<DmcDmaKind> {
        self.dmc_req
    }

    pub closed spec fn spec_bytes_remaining(&self) -> u16 {
        self.bytes_remaining
    }

    pub closed spec fn spec_address(&self) -> u16 {
        self.address_counter
    }

    pub closed spec fn spec_output(&self) -> u8 {
        self.output_value
    }

    pub closed spec fn spec_sample_buffer(&self) -> Option<u8> {
        if self.sample_buffer_empty { None } else { Some(self.sample_buffer) }
    }

    pub closed spec fn spec_read_pending(&self) -> bool {
        self.read_pending
    }

    pub open spec fn spec_irq_enabled(&self) -> bool {
        self.spec_regs()[0] >= 0x80
    }

    pub open spec fn spec_loop_enabled(&self) -> bool {
        (self.spec_regs()[0] / 0x40) % 2 == 1
    }

    pub closed spec fn spec_rate(&self) -> u16 {
        self.region.spec_dmc_rates()[(self.regs@[0] % 16) as int]
    }

    /// Sample start: $C000 + 64 * register 2.
    pub open spec fn spec_sample_address(&self) -> u16 {
        (0xc000 + self.spec_regs()[2] * 64) as u16
    }

    /// Sample length: 16 * register 3 + 1 bytes.
    pub open spec fn spec_sample_length(&self) -> u16 {
        (self.spec_regs()[3] * 16 + 1) as u16
    }

    /// One APU cycle: request the next byte when the buffer runs dry, then
    /// on a timer expiry apply one delta bit and refill the shifter.
    pub closed spec fn tick_post(self) -> (Dmc, u8) {
        let s0 = Dmc { current_tick: (self.current_tick + 1) as u64, ..self };
        let s1 = if !s0.read_pending && s0.sample_buffer_empty && s0.bytes_remaining != 0 {
            Dmc { dmc_req: Some(DmcDmaKind::Reload(s0.address_counter)), read_pending: true, ..s0 }
        } else {
            s0
        };
        let s2 = if s1.timer_counter != 0 {
            Dmc { timer_counter: (s1.timer_counter - 1) as u16, ..s1 }
        } else {
            let a = Dmc { timer_counter: (s1.spec_rate() - 1) as u16, ..s1 };
            let b = if !a.silence {
                Dmc {
                    output_value: delta_step(a.output_value, a.output_shifter % 2 == 1),
                    output_shifter: a.output_shifter / 2,
                    ..a
                }
            } else {
                a
            };
            let bits = if b.bits_remaining != 0 { (b.bits_remaining - 1) as u8 } else { 0u8 };
            if bits == 0 {
                if b.sample_buffer_empty {
                    Dmc { bits_remaining: 8, silence: true, ..b }
                } else {
                    Dmc {
                        bits_remaining: 8,
                        silence: false,
                        output_shifter: b.sample_buffer,
                        sample_buffer_empty: true,
                        ..b
                    }
                }
            } else {
                Dmc { bits_remaining: bits, ..b }
            }
        };
        (s2, s2.output_value)
    }

    pub fn new(region: Region) -> (r: Dmc)
        ensures
            r.spec_region() == region,
            r.spec_regs() == seq![0u8, 0, 0, 0],
            !r.spec_irq(),
            r.spec_dmc_req() is None,
            r.spec_bytes_remaining() == 0,
            r.spec_output() == 0,
            r.can_tick(),
            r.ticks() == 0,
    {
        Dmc {
            region,
            current_tick: 0,
            timer_counter: 0,
            sample_buffer: 0,
            sample_buffer_empty: false,
            address_counter: 0,
            bytes_remaining: 0,
            output_value: 0,
            output_shifter: 0,
            bits_remaining: 0,
            read_pending: false,
            irq: false,
            silence: false,
            regs: [0; 4],
            dmc_req: None,
        }
    }

    /// Delivers a byte fetched by DMA: fills the sample buffer, advances
    /// the address (wrapping to $8000) and counts the byte; the last byte
    /// either restarts a looping sample or raises the IRQ if enabled.
    pub fn dmc_read(&mut self, value: u8)
        ensures
            final(self).spec_sample_buffer() == Some(value),
            !final(self).spec_read_pending(),
            final(self).spec_regs() == old(self).spec_regs(),
            final(self).spec_output() == old(self).spec_output(),
            ({
                let next_addr = (((old(self).spec_address() + 1) % 0x10000) as u16) | 0x8000;
                let remaining = if old(self).spec_bytes_remaining() == 0 {
                    0
                } else {
                    (old(self).spec_bytes_remaining() - 1) as u16
                };
                if remaining == 0 && old(self).spec_loop_enabled() {
                    final(self).spec_bytes_remaining() == old(self).spec_sample_length()
                        && final(self).spec_address() == old(self).spec_sample_address()
                        && final(self).spec_irq() == old(self).spec_irq()
                } else {
                    final(self).spec_bytes_remaining() == remaining && final(self).spec_address()
                        == next_addr && final(self).spec_irq() == (old(self).spec_irq() || (remaining
                        == 0 && old(self).spec_irq_enabled()))
                }
            }),
            old(self).can_tick() ==> final(self).can_tick(),
            final(self).ticks() == old(self).ticks(),
    {
        self.read_pending = false;
        self.sample_buffer = value;
        self.sample_buffer_empty = false;
        self.address_counter = self.address_counter.wrapping_add(1);
        self.address_counter |= 0x8000;
        self.bytes_remaining = self.bytes_remaining.saturating_sub(1);
        if self.bytes_remaining == 0 {
            if self.loop_enabled() {
                self.bytes_remaining = self.sample_length();
                self.address_counter = self.sample_address();
            } else if self.irq_enabled() {
                self.irq = true;
            }
        }
    }

    pub fn get_irq(&self) -> (r: bool)
        ensures
            r == self.spec_irq(),
    {
        self.irq
    }

    /// Takes the pending DMA request.
    pub fn get_dmc_req(&mut self) -> (r: Option<DmcDmaKind>)
        ensures
            final(self).spec_output() == old(self).spec_output(),
            r == old(self).spec_dmc_req(),
            final(self).spec_dmc_req() is None,
            final(self).spec_irq() == old(self).spec_irq(),
            final(self).spec_regs() == old(self).spec_regs(),
            final(self).spec_bytes_remaining() == old(self).spec_bytes_remaining(),
            old(self).can_tick() ==> final(self).can_tick(),
            final(self).ticks() == old(self).ticks(),
    {
        self.dmc_req.take()
    }

    fn irq_enabled(&self) -> (r: bool)
        ensures
            r == self.spec_irq_enabled(),
    {
        let v = self.regs[0];
        proof { lemma_u8(v); }
        v & 0x80 != 0
    }

    fn loop_enabled(&self) -> (r: bool)
        ensures
            r == self.spec_loop_enabled(),
    {
        let v = self.regs[0];
        proof { lemma_u8(v); }
        v & 0x40 != 0
    }

    fn rate(&self) -> (r: u16)
        ensures
            r == self.spec_rate(),
            r >= 50,
    {
        let rates = self.region.dmc_rates();
        let v = self.regs[0];
        proof { lemma_u8(v); }
        let idx = (v & 0xf) as usize;
        proof {
            lemma_rates_positive(self.region, idx as int);
        }
        rates[idx]
    }

    fn direct_load(&self) -> (r: u8)
        ensures
            r == self.regs@[1] % 0x80,
    {
        let v = self.regs[1];
        proof { lemma_u8(v); }
        v & 0x7f
    }

    fn sample_address(&self) -> (r: u16)
        ensures
            r == self.spec_sample_address(),
    {
        let v = self.regs[2];
        proof { lemma_u8_pair(0, v); }
        ((v as u16) << 6) | 0xc000
    }

    fn sample_length(&self) -> (r: u16)
        ensures
            r == self.spec_sample_length(),
    {
        let v = self.regs[3];
        proof { lemma_u8_pair(0, v); }
        ((v as u16) << 4) | 1
    }
}

impl Channel for Dmc {
    closed spec fn can_tick(&self) -> bool {
        self.current_tick < u64::MAX
    }

    fn register(&self, cpu: &mut AddressBus)
        ensures
            final(cpu).writes() == old(cpu).writes().push(
                (MappingFn::AndEqualsAndMask(AndEqualsAndMask(0xfffc, 0x4010, 0x3)), DeviceKind::Dmc),
            ),
            final(cpu).reads() == old(cpu).reads(),
    {
        cpu.register_write(DeviceKind::Dmc, AndEqualsAndMask(0xfffc, 0x4010, 0x3).into());
    }

    /// Register 0 clears a pending IRQ when IRQs get disabled; register 1
    /// loads the output level directly.
    fn write(&mut self, addr: u16, value: u8)
        ensures
            final(self).spec_regs() == old(self).spec_regs().update(addr as int, value),
            final(self).spec_irq() == if addr == 0 && !final(self).spec_irq_enabled() {
                false
            } else {
                old(self).spec_irq()
            },
            final(self).spec_irq() == if addr == 0 && value < 0x80 { false } else { old(self).spec_irq() },
            final(self).spec_output() == if addr == 1 { value % 0x80 } else { old(self).spec_output() },
            final(self).spec_bytes_remaining() == old(self).spec_bytes_remaining(),
            final(self).spec_dmc_req() == old(self).spec_dmc_req(),
            old(self).can_tick() ==> final(self).can_tick(),
            final(self).ticks() == old(self).ticks(),
    {
        self.regs[addr as usize] = value;
        if addr == 0 {
            if !self.irq_enabled() {
                self.irq = false;
            }
        } else if addr == 1 {
            self.output_value = self.direct_load();
        }
    }

    fn tick(&mut self, _state: ApuSnapshot) -> (r: u8)
        ensures
            (*final(self), r) == old(self).tick_post(),
            final(self).ticks() == old(self).ticks() + 1,
            old(self).spec_output() <= 127 ==> r <= 127 && final(self).spec_output() <= 127,
    {
        proof {
            lemma_dmc_level(*self);
        }
        self.current_tick += 1;

        if !self.read_pending && self.sample_buffer_empty && self.bytes_remaining != 0 {
            self.dmc_req = Some(DmcDmaKind::Reload(self.address_counter));
            self.read_pending = true;
        }

        if self.timer_counter != 0 {
            self.timer_counter -= 1
        } else {
            self.timer_counter = self.rate() - 1;
            if !self.silence {
                let sh = self.output_shifter;
                proof { lemma_u8(sh); }
                let level = self.output_value;
                self.output_value = if sh & 1 == 1 {
                    if level <= 125 {
                        level + 2
                    } else {
                        level
                    }
                } else if level >= 2 {
                    level - 2
                } else {
                    level
                };
                self.output_shifter = sh >> 1;
            }
            if self.bits_remaining != 0 {
                self.bits_remaining -= 1;
            }
            if self.bits_remaining == 0 {
                self.bits_remaining = 8;
                if self.sample_buffer_empty {
                    self.silence = true;
                } else {
                    self.silence = false;
                    self.output_shifter = self.sample_buffer;
                    self.sample_buffer_empty = true;
                }
            }
        }

        self.output_value
    }

    /// Starting playback restarts an exhausted sample, requests the first
    /// byte if the buffer is empty, and acknowledges the IRQ.
    fn enable(&mut self)
        ensures
            *final(self) == old(self).switched(true),
            final(self).spec_output() == old(self).spec_output(),
            !final(self).spec_irq(),
            final(self).spec_regs() == old(self).spec_regs(),
            old(self).spec_bytes_remaining() == 0 ==> final(self).spec_bytes_remaining()
                == old(self).spec_sample_length() && final(self).spec_address()
                == old(self).spec_sample_address(),
            old(self).spec_bytes_remaining() != 0 ==> final(self).spec_bytes_remaining()
                == old(self).spec_bytes_remaining() && final(self).spec_address() == old(self).spec_address(),
            (!old(self).spec_read_pending() && old(self).spec_sample_buffer() is None)
                ==> final(self).spec_dmc_req() == Some(DmcDmaKind::Load(final(self).spec_address())),
            !(!old(self).spec_read_pending() && old(self).spec_sample_buffer() is None)
                ==> final(self).spec_dmc_req() == old(self).spec_dmc_req(),
            old(self).can_tick() ==> final(self).can_tick(),
            final(self).ticks() == old(self).ticks(),
    {
        if self.bytes_remaining == 0 {
            self.bytes_remaining = self.sample_length();
            self.address_counter = self.sample_address();
        }

        if !self.read_pending && self.sample_buffer_empty && self.bytes_remaining != 0 {
            self.read_pending = true;
            self.dmc_req = Some(DmcDmaKind::Load(self.address_counter));
        }

        self.irq = false;
    }

    /// Stopping playback drops the remaining bytes and acknowledges the IRQ.
    fn disable(&mut self)
        ensures
            *final(self) == old(self).switched(false),
            final(self).spec_output() == old(self).spec_output(),
            !final(self).spec_irq(),
            final(self).spec_bytes_remaining() == 0,
            final(self).spec_regs() == old(self).spec_regs(),
            old(self).can_tick() ==> final(self).can_tick(),
            final(self).ticks() == old(self).ticks(),
    {
        self.bytes_remaining = 0;
        self.irq = false;
    }

    fn get_state(&self) -> (r: bool)
        ensures
            r == (self.spec_bytes_remaining() > 0),
    {
        self.bytes_remaining > 0
    }
}

/// A cycle never changes the IRQ flag: only a finished sample read raises
/// it, and only a write, enable or disable clears it.
pub proof fn lemma_tick_keeps_irq(d: Dmc)
    ensures
        d.tick_post().0.spec_irq() == d.spec_irq(),
{
}

/// The channel always holds its four registers (so what a register write
/// leaves in register 0 is the byte written there).
pub proof fn lemma_regs_len(d: Dmc)
    ensures
        d.spec_regs().len() == 4,
{
}

/// What one cycle does, read off the channel it leaves: it outputs the
/// channel's level; the IRQ flag, the registers, the bytes left and the
/// sample address stay, and the cycle count advances.
pub proof fn lemma_dmc_tick(d: Dmc)
    ensures
        d.tick_post().1 == d.tick_post().0.spec_output(),
        d.tick_post().0.spec_irq() == d.spec_irq(),
        d.tick_post().0.spec_regs() == d.spec_regs(),
        d.tick_post().0.spec_bytes_remaining() == d.spec_bytes_remaining(),
        d.tick_post().0.spec_address() == d.spec_address(),
        d.ticks() < u64::MAX ==> d.tick_post().0.ticks() == d.ticks() + 1,
{
}

/// A cycle keeps the output level within 7 bits.
pub proof fn lemma_dmc_level(c: Dmc)
    ensures
        c.spec_output() <= 127 ==> c.tick_post().1 <= 127 && c.tick_post().0.spec_output() <= 127,
{
}

/// The delta output never leaves the 7-bit range once inside it.
pub proof fn lemma_delta_in_range(level: u8, bit_set: bool)
    requires
        level <= 127,
    ensures
        delta_step(level, bit_set) <= 127,
{
}

} // verus!

verus! {

/// The channel can run another cycle while its cycle count is below the
/// top of its 64-bit range.
pub proof fn lemma_dmc_can_tick(c: &Dmc)
    ensures
        c.can_tick() == (c.ticks() < u64::MAX),
{
}


/// $4015 with bit 4 set starts playback: an idle channel (no bytes left)
/// restarts at the sample address with the sample length, and with the
/// buffer empty and no read pending the first byte is requested; bit 4
/// clear stops it. Either way the IRQ flag drops and the output level,
/// registers and cycle count stay.
pub proof fn lemma_switched(d: Dmc, on: bool)
    ensures
        !d.switched(on).spec_irq(),
        d.switched(on).spec_output() == d.spec_output(),
        d.switched(on).spec_regs() == d.spec_regs(),
        d.switched(on).ticks() == d.ticks(),
        !on ==> d.switched(on).spec_bytes_remaining() == 0,
        on && d.spec_bytes_remaining() == 0 ==> d.switched(on).spec_bytes_remaining() == d.spec_sample_length()
            && d.switched(on).spec_address() == d.spec_sample_address(),
        on && d.spec_bytes_remaining() != 0 ==> d.switched(on).spec_bytes_remaining() == d.spec_bytes_remaining()
            && d.switched(on).spec_address() == d.spec_address(),
        on && !d.spec_read_pending() && d.spec_sample_buffer() is None ==> d.switched(on).spec_dmc_req() == Some(
            DmcDmaKind::Load(d.switched(on).spec_address()),
        ) && d.switched(on).spec_read_pending(),
        on && !(!d.spec_read_pending() && d.spec_sample_buffer() is None) ==> d.switched(on).spec_dmc_req()
            == d.spec_dmc_req(),
{
}

} // verus!
