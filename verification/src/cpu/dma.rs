//! OAM and DMC DMA: the unit that halts the CPU on a read cycle and takes
//! over the bus to copy sprite memory or fetch audio samples.
use vstd::prelude::*;

use super::{CpuPinIn, TickResult};

verus! {

#[derive(Debug, Copy, Clone, PartialEq, Eq, Structural)]
pub enum DmcDma {
    Dummy,
    Read,
    Complete,
}

#[derive(Debug, Copy, Clone, PartialEq, Eq, Structural)]
pub enum DmcDmaKind {
    Load(u16),
    Reload(u16),
}

#[derive(Debug, Copy, Clone, PartialEq, Eq, Structural)]
pub enum OamDma {
    Read,
    Write,
}

#[derive(Debug, Copy, Clone, PartialEq, Eq, Structural)]
pub enum Alignment {
    Get,
    Put,
}

#[derive(Debug, Clone, Copy)]
pub struct Dma {
    pub cycle: u64,
    pub dmc_timer: Option<(u64, u16)>,
    pub want_dmc: Option<u16>,
    pub want_oam: Option<u16>,
    pub dmc_step: Option<DmcDma>,
    pub oam_step: Option<OamDma>,
    pub halt_addr: Option<u16>,
    pub dmc_sample: Option<u8>,
    pub oam_offset: u16,
    pub oam_active: bool,
    pub oam_read_cycle: u64,
}

/// Even cycles are put cycles, odd cycles get cycles.
pub open spec fn alignment_of(cycle: u64) -> Alignment {
    if cycle % 2 == 0 { Alignment::Put } else { Alignment::Get }
}

pub open spec fn or_opt(a: Option<u16>, b: Option<u16>) -> Option<u16> {
    if a is Some { a } else { b }
}

impl Dma {
    /// The cycle counter and OAM bookkeeping stay in range.
    pub open spec fn wf(&self) -> bool {
        &&& self.oam_read_cycle <= self.cycle
        &&& self.oam_offset <= 0x100
        &&& self.oam_active ==> self.oam_offset <= 0xff
        &&& self.oam_step == Some(OamDma::Write) ==> self.oam_active
    }

    pub open spec fn spec_alignment(&self) -> Alignment {
        alignment_of(self.cycle)
    }

    /// One cycle of the DMC fetch: dummy cycle, a get-aligned read of the
    /// sample address, then latching the sample.
    pub open spec fn dmc_post(self, pin: CpuPinIn) -> (Dma, Option<TickResult>) {
        match self.want_dmc {
            None => (self, None),
            Some(addr) => {
                let step = match self.dmc_step {
                    Some(s) => s,
                    None => DmcDma::Dummy,
                };
                match step {
                    DmcDma::Dummy => (Dma { dmc_step: Some(DmcDma::Read), ..self }, None),
                    DmcDma::Read => if self.spec_alignment() is Put {
                        (self, None)
                    } else {
                        (Dma { dmc_step: Some(DmcDma::Complete), ..self }, Some(TickResult::Read(addr)))
                    },
                    DmcDma::Complete => (
                        Dma { dmc_sample: Some(pin.data), want_dmc: None, dmc_step: None, ..self },
                        None,
                    ),
                }
            },
        }
    }

    /// One cycle of the 256-byte sprite copy from page `want_oam` to $2004.
    pub open spec fn oam_post(self, pin: CpuPinIn) -> (Dma, Option<TickResult>) {
        match self.want_oam {
            None => (self, None),
            Some(addr) => {
                let s = match self.oam_step {
                    Some(_) => self,
                    None => Dma { oam_offset: 0, oam_active: true, ..self },
                };
                let step = match self.oam_step {
                    Some(st) => st,
                    None => OamDma::Read,
                };
                match (step, s.spec_alignment()) {
                    (OamDma::Read, Alignment::Put) | (OamDma::Write, Alignment::Get) => (s, None),
                    (OamDma::Read, Alignment::Get) => if !s.oam_active {
                        (Dma { want_oam: None, oam_step: None, ..s }, None)
                    } else {
                        (
                            Dma { oam_read_cycle: s.cycle, oam_step: Some(OamDma::Write), ..s },
                            Some(TickResult::Read(((addr * 0x100) % 0x10000 + s.oam_offset % 0x100) as u16)),
                        )
                    },
                    (OamDma::Write, Alignment::Put) => if s.cycle == s.oam_read_cycle + 1 {
                        (
                            Dma {
                                oam_step: Some(OamDma::Read),
                                oam_offset: (s.oam_offset + 1) as u16,
                                oam_active: if s.oam_offset + 1 > 0xff { false } else { s.oam_active },
                                ..s
                            },
                            Some(TickResult::Write(0x2004, pin.data)),
                        )
                    } else {
                        (Dma { oam_step: Some(OamDma::Read), ..s }, None)
                    },
                }
            },
        }
    }

    /// The state after the DMC start-delay timer counts down one cycle.
    pub open spec fn timer_post(self) -> Dma {
        match self.dmc_timer {
            Some((timer, addr)) => if timer == 0 {
                Dma { want_dmc: Some(addr), dmc_timer: None, ..self }
            } else {
                Dma { dmc_timer: Some(((timer - 1) as u64, addr)), ..self }
            },
            None => self,
        }
    }

    /// A whole cycle of the DMA unit. While the CPU is halted the unit owns
    /// the bus: DMC first, then OAM, then idling on the halt address, and
    /// finally replaying the halted read once nothing is wanted.
    pub open spec fn tick_post(self, pin: CpuPinIn) -> (Dma, Option<TickResult>) {
        let s0 = Dma { cycle: (self.cycle + 1) as u64, ..self }.timer_post();
        match s0.halt_addr {
            None => (s0, None),
            Some(halt) => {
                let (s1, d) = s0.dmc_post(pin);
                if d is Some {
                    (s1, d)
                } else {
                    let (s2, o) = s1.oam_post(pin);
                    if o is Some {
                        (s2, o)
                    } else if or_opt(s2.want_dmc, s2.want_oam) is None {
                        (Dma { halt_addr: None, ..s2 }, Some(TickResult::Read(halt)))
                    } else {
                        (s2, Some(TickResult::Idle(halt)))
                    }
                }
            },
        }
    }

    /// The DMA unit only drives the bus while the CPU is halted, then only
    /// reads, idles on the halted address or writes to OAMDATA ($2004);
    /// each cycle advances its count by one.
    pub proof fn lemma_tick_shapes(self, pin: CpuPinIn)
        requires
            self.cycle < u64::MAX,
        ensures
            self.tick_post(pin).0.cycle == self.cycle + 1,
            self.halt_addr is None ==> self.tick_post(pin).1 is None,
            self.tick_post(pin).1 matches Some(TickResult::Write(a, _)) ==> a == 0x2004,
            self.tick_post(pin).1 matches Some(TickResult::Idle(h)) ==> self.halt_addr == Some(h),
            !(self.tick_post(pin).1 matches Some(TickResult::Fetch(_))),
    {
    }

    pub fn new() -> (r: Self)
        ensures
            r.wf(),
            r == (Dma {
                cycle: 0,
                dmc_timer: None,
                want_dmc: None,
                want_oam: None,
                dmc_step: None,
                oam_step: None,
                halt_addr: None,
                dmc_sample: None,
                oam_offset: 0,
                oam_active: false,
                oam_read_cycle: 0,
            }),
    {
        Dma {
            cycle: 0,
            dmc_timer: None,
            want_dmc: None,
            want_oam: None,
            dmc_step: None,
            oam_step: None,
            halt_addr: None,
            dmc_sample: None,
            oam_offset: 0,
            oam_active: false,
            oam_read_cycle: 0,
        }
    }

    /// Runs one DMA cycle; `Some` means the DMA unit drives the bus.
    pub fn tick(&mut self, pin_in: CpuPinIn) -> (r: Option<TickResult>)
        requires
            old(self).wf(),
            old(self).cycle < u64::MAX - 1,
        ensures
            (*final(self), r) == old(self).tick_post(pin_in),
            final(self).wf(),
    {
        self.cycle += 1;

        if let Some((timer, addr)) = self.dmc_timer {
            if timer == 0 {
                self.want_dmc = Some(addr);
                self.dmc_timer = None;
            } else {
                self.dmc_timer = Some((timer - 1, addr));
            }
        }

        if let Some(halt_addr) = self.halt_addr {
            if let Some(tick) = self.dmc(pin_in) {
                return Some(tick);
            }

            if let Some(tick) = self.oam(pin_in) {
                return Some(tick);
            }

            let wanted = if self.want_dmc.is_some() { self.want_dmc } else { self.want_oam };
            if wanted.is_none() {
                match self.halt_addr.take() {
                    Some(a) => Some(TickResult::Read(a)),
                    None => None,
                }
            } else {
                Some(TickResult::Idle(halt_addr))
            }
        } else {
            None
        }
    }

    /// Offers the CPU's own bus cycle: a pending DMA halts the CPU on its
    /// next read (replaying the read), and a halted CPU idles until the DMA
    /// is done.
    pub fn try_halt(&mut self, tick: TickResult) -> (r: Option<TickResult>)
        ensures
            ({
                let wanted = or_opt(old(self).want_dmc, old(self).want_oam);
                match (old(self).halt_addr, wanted) {
                    (None, Some(_)) => match tick {
                        TickResult::Read(addr) => *final(self) == (Dma { halt_addr: Some(addr), ..*old(self) })
                            && r == Some(TickResult::Read(addr)),
                        _ => *final(self) == *old(self) && r is None,
                    },
                    (Some(h), Some(_)) => *final(self) == *old(self) && r == Some(TickResult::Idle(h)),
                    (Some(h), None) => *final(self) == (Dma { halt_addr: None, ..*old(self) }) && r == Some(
                        TickResult::Read(h),
                    ),
                    (None, None) => *final(self) == *old(self) && r is None,
                }
            }),
    {
        let wanted = if self.want_dmc.is_some() { self.want_dmc } else { self.want_oam };
        match (self.halt_addr, wanted) {
            (None, Some(_)) => match tick {
                TickResult::Read(addr) => {
                    self.halt_addr = Some(addr);
                    Some(TickResult::Read(addr))
                },
                TickResult::Fetch(_) | TickResult::Write(_, _) | TickResult::Idle(_) => None,
            },
            (Some(h), Some(_)) => Some(TickResult::Idle(h)),
            (Some(h), None) => {
                self.halt_addr = None;
                Some(TickResult::Read(h))
            },
            (None, None) => None,
        }
    }

    fn alignment(&self) -> (r: Alignment)
        ensures
            r == self.spec_alignment(),
    {
        let c = self.cycle;
        proof { crate::bits::lemma_u64(c); }
        if c & 1 == 0 {
            Alignment::Put
        } else {
            Alignment::Get
        }
    }

    /// Takes the sample byte fetched by the last DMC DMA.
    pub fn dmc_sample(&mut self) -> (r: Option<u8>)
        ensures
            r == old(self).dmc_sample,
            *final(self) == (Dma { dmc_sample: None, ..*old(self) }),
    {
        self.dmc_sample.take()
    }

    /// A first sample load starts after a 2-3 cycle delay depending on
    /// alignment; a reload is wanted at once.
    pub fn request_dmc_dma(&mut self, dma: DmcDmaKind)
        ensures
            *final(self) == match dma {
                DmcDmaKind::Load(addr) => match old(self).spec_alignment() {
                    Alignment::Get => Dma { dmc_timer: Some((3, addr)), ..*old(self) },
                    Alignment::Put => Dma { dmc_timer: Some((2, addr)), ..*old(self) },
                },
                DmcDmaKind::Reload(addr) => Dma { want_dmc: Some(addr), ..*old(self) },
            },
    {
        match (dma, self.alignment()) {
            (DmcDmaKind::Load(addr), Alignment::Get) => self.dmc_timer = Some((3, addr)),
            (DmcDmaKind::Load(addr), Alignment::Put) => self.dmc_timer = Some((2, addr)),
            (DmcDmaKind::Reload(addr), _) => self.want_dmc = Some(addr),
        }
    }

    /// Requests a sprite copy from page `high_addr`.
    pub fn request_oam_dma(&mut self, high_addr: u16)
        ensures
            *final(self) == (Dma { want_oam: Some(high_addr), ..*old(self) }),
    {
        self.want_oam = Some(high_addr)
    }

    fn dmc(&mut self, pin_in: CpuPinIn) -> (r: Option<TickResult>)
        ensures
            (*final(self), r) == old(self).dmc_post(pin_in),
            old(self).wf() ==> final(self).wf(),
            final(self).cycle == old(self).cycle,
    {
        let addr = match self.want_dmc {
            Some(a) => a,
            None => {
                return None;
            },
        };

        let step = if let Some(step) = self.dmc_step {
            step
        } else {
            DmcDma::Dummy
        };

        match (step, self.alignment()) {
            (DmcDma::Dummy, _) => {
                self.dmc_step = Some(DmcDma::Read);
                None
            },
            (DmcDma::Read, Alignment::Put) => None,
            (DmcDma::Read, Alignment::Get) => {
                self.dmc_step = Some(DmcDma::Complete);
                Some(TickResult::Read(addr))
            },
            (DmcDma::Complete, _) => {
                self.dmc_sample = Some(pin_in.data);
                self.want_dmc = None;
                self.dmc_step = None;
                None
            },
        }
    }

    fn oam(&mut self, pin_in: CpuPinIn) -> (r: Option<TickResult>)
        requires
            old(self).wf(),
            old(self).cycle < u64::MAX,
        ensures
            (*final(self), r) == old(self).oam_post(pin_in),
            final(self).wf(),
    {
        let addr = match self.want_oam {
            Some(a) => a,
            None => {
                return None;
            },
        };

        let step = if let Some(step) = self.oam_step {
            step
        } else {
            self.oam_offset = 0;
            self.oam_active = true;
            OamDma::Read
        };

        match (step, self.alignment()) {
            (OamDma::Read, Alignment::Put) | (OamDma::Write, Alignment::Get) => None,
            (OamDma::Read, Alignment::Get) => {
                if !self.oam_active {
                    self.want_oam = None;
                    self.oam_step = None;
                    None
                } else {
                    self.oam_read_cycle = self.cycle;
                    let off = self.oam_offset;
                    let read_addr = addr << 8 | off & 0xff;
                    proof { crate::bits::lemma_u16_pair(addr, off); }
                    self.oam_step = Some(OamDma::Write);
                    Some(TickResult::Read(read_addr))
                }
            },
            (OamDma::Write, Alignment::Put) => {
                self.oam_step = Some(OamDma::Read);
                if self.cycle == self.oam_read_cycle + 1 {
                    self.oam_offset += 1;
                    if self.oam_offset > 0xff {
                        self.oam_active = false;
                    }
                    Some(TickResult::Write(0x2004, pin_in.data))
                } else {
                    None
                }
            },
        }
    }
}

} // verus!
