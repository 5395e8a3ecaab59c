//! The Konami VRC IRQ counter: an 8-bit up-counter clocked every CPU cycle
//! or every scanline (approximated as 341/3 CPU cycles), reloading from a
//! latch and raising an IRQ when it overflows.
use vstd::prelude::*;

verus! {

#[derive(Debug, Copy, Clone, PartialEq, Eq, Structural)]
pub enum VrcIrqMode {
    Cycle,
    Scanline,
}

#[derive(Clone, Copy, Debug, PartialEq, Eq, Structural)]
pub struct VrcIrq {
    pub counter: u8,
    pub scanline_counter: i16,
    pub latch: u8,
    pub mode: VrcIrqMode,
    pub enabled: bool,
    pub renable: bool,
    pub triggered: bool,
}

pub open spec fn wrap_i16(v: int) -> i16 {
    (if v > 0x7fff { v - 0x10000 } else if v < -0x8000 { v + 0x10000 } else { v }) as i16
}

impl VrcIrq {
    /// The counter as the board powers up.
    pub open spec fn initial() -> VrcIrq {
        VrcIrq {
            counter: 0,
            scanline_counter: 341,
            latch: 0,
            mode: VrcIrqMode::Cycle,
            enabled: false,
            renable: false,
            triggered: false,
        }
    }

    /// One counter clock: at $FF the counter reloads from the latch, an
    /// enabled counter raises the IRQ, and the enable takes its re-enable
    /// value; otherwise it counts up.
    pub open spec fn clocked(self) -> VrcIrq {
        if self.counter == 0xff {
            VrcIrq {
                triggered: self.triggered || self.enabled,
                counter: self.latch,
                enabled: self.renable,
                ..self
            }
        } else {
            VrcIrq { counter: (self.counter + 1) as u8, ..self }
        }
    }

    /// One CPU cycle. The scanline prescaler counts down by 3 and adds 341
    /// per scanline, so it clocks the counter every 113⅔ cycles; in cycle
    /// mode the counter is clocked every cycle (the prescaler arithmetic
    /// wraps at 16 bits).
    pub open spec fn tick_post(self) -> VrcIrq {
        let sc = wrap_i16(self.scanline_counter - 3);
        match self.mode {
            VrcIrqMode::Cycle => VrcIrq { scanline_counter: wrap_i16(sc + 341), ..self }.clocked(),
            VrcIrqMode::Scanline => if sc <= 0 {
                VrcIrq { scanline_counter: (sc + 341) as i16, ..self }.clocked()
            } else {
                VrcIrq { scanline_counter: sc, ..self }
            },
        }
    }

    pub fn new() -> (r: Self)
        ensures
            r == VrcIrq::initial(),
    {
        Self {
            counter: 0,
            scanline_counter: 341,
            latch: 0,
            mode: VrcIrqMode::Cycle,
            enabled: false,
            renable: false,
            triggered: false,
        }
    }

    pub fn tick(&mut self)
        ensures
            *final(self) == old(self).tick_post(),
    {
        self.scanline_counter = self.scanline_counter.wrapping_sub(3);
        match self.mode {
            VrcIrqMode::Cycle => {
                self.scanline_counter = self.scanline_counter.wrapping_add(341);
                self.trigger();
            },
            VrcIrqMode::Scanline => {
                if self.scanline_counter <= 0 {
                    self.scanline_counter += 341;
                    self.trigger();
                }
            },
        }
    }

    fn trigger(&mut self)
        ensures
            *final(self) == old(self).clocked(),
    {
        if self.counter == 0xff {
            if self.enabled {
                self.triggered = true;
            }
            self.counter = self.latch;
            self.enabled = self.renable;
        } else {
            self.counter += 1;
        }
    }

    pub fn irq(&self) -> (r: bool)
        ensures
            r == self.triggered,
    {
        self.triggered
    }

    pub fn latch(&mut self, value: u8)
        ensures
            *final(self) == (VrcIrq { latch: value, ..*old(self) }),
    {
        self.latch = value;
    }

    /// Sets the low nibble of the latch.
    pub fn latch_lo(&mut self, value: u8)
        ensures
            *final(self) == (VrcIrq { latch: (old(self).latch & 0xf0) | (value & 0x0f), ..*old(self) }),
    {
        self.latch = (self.latch & 0xf0) | (value & 0x0f);
    }

    /// Sets the high nibble of the latch.
    pub fn latch_hi(&mut self, value: u8)
        ensures
            *final(self) == (VrcIrq {
                latch: (old(self).latch & 0x0f) | ((value & 0x0f) << 4u8),
                ..*old(self)
            }),
    {
        self.latch = (self.latch & 0x0f) | ((value & 0x0f) << 4);
    }

    /// Bit 0: enable after acknowledge, bit 1: enable, bit 2: cycle mode.
    /// Acknowledges the IRQ, resets the prescaler, and reloads the counter
    /// when enabling.
    /// The counter after a control write.
    pub open spec fn controlled(self, value: u8) -> VrcIrq {
        VrcIrq {
            renable: value & 0x1 != 0,
            enabled: value & 0x2 != 0,
            mode: if value & 0x4 != 0 { VrcIrqMode::Cycle } else { VrcIrqMode::Scanline },
            triggered: false,
            scanline_counter: 341,
            counter: if value & 0x2 != 0 { self.latch } else { self.counter },
            ..self
        }
    }

    pub fn control(&mut self, value: u8)
        ensures
            *final(self) == old(self).controlled(value),
            final(self).renable == (value & 0x1 != 0),
            final(self).enabled == (value & 0x2 != 0),
            final(self).mode == if value & 0x4 != 0 { VrcIrqMode::Cycle } else { VrcIrqMode::Scanline },
            !final(self).triggered,
            final(self).scanline_counter == 341,
            final(self).counter == if value & 0x2 != 0 { old(self).latch } else { old(self).counter },
            final(self).latch == old(self).latch,
    {
        self.renable = value & 0x1 != 0;
        self.enabled = value & 0x2 != 0;
        self.mode = if value & 0x4 != 0 {
            VrcIrqMode::Cycle
        } else {
            VrcIrqMode::Scanline
        };

        self.triggered = false;
        self.scanline_counter = 341;

        if self.enabled {
            self.counter = self.latch;
        }
    }

    pub fn acknowledge(&mut self)
        ensures
            *final(self) == (VrcIrq { triggered: false, ..*old(self) }),
    {
        self.triggered = false;
    }
}

/// An enabled counter loaded with `latch` raises its IRQ after exactly
/// `256 - latch` clocks and not before.
pub open spec fn clocks(irq: VrcIrq, n: nat) -> VrcIrq
    decreases n,
{
    if n == 0 { irq } else { clocks(irq, (n - 1) as nat).clocked() }
}

pub proof fn lemma_irq_after_overflow(irq: VrcIrq, n: nat)
    requires
        irq.enabled,
        !irq.triggered,
        n <= 0xff - irq.counter,
    ensures
        clocks(irq, n).counter == irq.counter + n,
        !clocks(irq, n).triggered,
        clocks(irq, n).enabled,
        n == 0xff - irq.counter ==> clocks(irq, (n + 1) as nat).triggered,
    decreases n,
{
    if n > 0 {
        lemma_irq_after_overflow(irq, (n - 1) as nat);
    }
}

} // verus!
