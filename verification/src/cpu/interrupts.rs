//! Interrupt detection (IRQ level, NMI/RESET/POWER edges) and the
//! cycle-by-cycle sequences that push state and load a vector.
use vstd::prelude::*;

use super::registers::{stack_addr, CpuRegs};
use super::{CpuPinIn, TickResult};

verus! {

/// Pending interrupt kinds, lowest priority first.
#[derive(Debug, Copy, Clone, PartialEq, Eq, Structural)]
pub enum Triggered {
    Irq,
    Nmi,
    Reset,
    Power,
}

pub open spec fn priority(t: Triggered) -> int {
    match t {
        Triggered::Irq => 0,
        Triggered::Nmi => 1,
        Triggered::Reset => 2,
        Triggered::Power => 3,
    }
}

/// The pending interrupt after `t` is raised: the higher-priority one wins.
pub open spec fn raise(cur: Option<Triggered>, t: Triggered) -> Option<Triggered> {
    match cur {
        Some(c) => if priority(c) >= priority(t) { Some(c) } else { Some(t) },
        None => Some(t),
    }
}

pub open spec fn raise_if(cur: Option<Triggered>, cond: bool, t: Triggered) -> Option<Triggered> {
    if cond { raise(cur, t) } else { cur }
}

fn raise_exec(cur: Option<Triggered>, t: Triggered) -> (r: Option<Triggered>)
    ensures
        r == raise(cur, t),
{
    match cur {
        Some(c) => {
            if rank(c) >= rank(t) {
                Some(c)
            } else {
                Some(t)
            }
        },
        None => Some(t),
    }
}

fn rank(t: Triggered) -> (r: u8)
    ensures
        r == priority(t),
{
    match t {
        Triggered::Irq => 0,
        Triggered::Nmi => 1,
        Triggered::Reset => 2,
        Triggered::Power => 3,
    }
}

impl Triggered {
    pub open spec fn spec_vector(&self) -> u16 {
        match self {
            Triggered::Reset | Triggered::Power => 0xfffc,
            Triggered::Nmi => 0xfffa,
            Triggered::Irq => 0xfffe,
        }
    }

    /// The address of the little-endian handler pointer.
    pub fn vector(&self) -> (r: u16)
        ensures
            r == self.spec_vector(),
            r < 0xffff,
    {
        match self {
            Triggered::Reset | Triggered::Power => 0xfffc,
            Triggered::Nmi => 0xfffa,
            Triggered::Irq => 0xfffe,
        }
    }
}

#[derive(Debug, Copy, Clone, PartialEq, Eq, Structural)]
pub enum Irq {
    ReadPcOne,
    ReadPcTwo,
    WriteRegPcHigh,
    WriteRegPcLow,
    WriteRegP,
    ReadHighJump,
    ReadLowJump(u16),
    UpdateRegPc,
}

#[derive(Debug, Copy, Clone, PartialEq, Eq, Structural)]
pub enum Power {
    ReadRegPcLow,
    ReadRegPcHigh(u16),
    UpdateRegPc(u16),
}

#[derive(Debug, Copy, Clone, PartialEq, Eq, Structural)]
pub enum Steps {
    Irq(Irq),
    Reset(Power),
    Power(Power),
}

/// Level-triggered IRQ line.
#[derive(Debug, Clone, Copy, PartialEq, Eq, Structural)]
pub struct IrqInterrupt {
    pub triggered: bool,
}

impl IrqInterrupt {
    fn new() -> (r: Self)
        ensures
            r == (IrqInterrupt { triggered: false }),
    {
        Self { triggered: false }
    }

    fn tick(&mut self, pin_in: &CpuPinIn)
        ensures
            final(self).triggered == pin_in.irq,
    {
        self.triggered = pin_in.irq;
    }

    fn poll(&mut self, regs: &CpuRegs) -> (r: bool)
        ensures
            r == (!regs.flag_i && old(self).triggered),
            *final(self) == *old(self),
    {
        !regs.flag_i && self.triggered
    }
}

/// An edge-triggered line: fires once on each low-to-high transition.
#[derive(Debug, Clone, Copy, PartialEq, Eq, Structural)]
pub struct EdgeInterrupt {
    pub was_high: bool,
    pub triggered: bool,
}

pub open spec fn edge_tick(e: EdgeInterrupt, level: bool) -> EdgeInterrupt {
    EdgeInterrupt { was_high: level, triggered: e.triggered || (!e.was_high && level) }
}

/// One trigger per rising edge: a low-to-high transition raises the
/// trigger, a line held high (once the trigger has been taken) or held
/// low raises nothing.
pub proof fn lemma_edge_once(e: EdgeInterrupt)
    ensures
        !e.was_high ==> edge_tick(e, true).triggered,
        e.was_high && !e.triggered ==> edge_tick(e, true) == e,
        edge_tick(e, false).triggered == e.triggered && !edge_tick(e, false).was_high,
{
}

/// The line after a run of cycles at the given levels.
pub open spec fn edge_run(e: EdgeInterrupt, levels: Seq<bool>) -> EdgeInterrupt
    decreases levels.len(),
{
    if levels.len() == 0 {
        e
    } else {
        edge_run(edge_tick(e, levels[0]), levels.drop_first())
    }
}

/// However long the line stays high after its trigger was taken, it
/// raises no second one; a low level followed by a high one raises it
/// again.
pub proof fn lemma_edge_held_high(e: EdgeInterrupt, levels: Seq<bool>)
    requires
        e.was_high,
        !e.triggered,
        forall|i: int| 0 <= i < levels.len() ==> #[trigger] levels[i],
    ensures
        edge_run(e, levels) == e,
        edge_run(e, levels.push(false).push(true)).triggered,
    decreases levels.len(),
{
    if levels.len() > 0 {
        assert(edge_tick(e, levels[0]) == e);
        let rest = levels.drop_first();
        assert forall|i: int| 0 <= i < rest.len() implies #[trigger] rest[i] by {
            assert(rest[i] == levels[i + 1]);
        }
        lemma_edge_held_high(e, rest);
        let ext = levels.push(false).push(true);
        assert(ext[0] == levels[0]);
        assert(ext.drop_first() =~= rest.push(false).push(true));
        assert(edge_run(e, ext) == edge_run(e, rest.push(false).push(true)));
    } else {
        let ext = levels.push(false).push(true);
        let e1 = edge_tick(e, false);
        let e2 = edge_tick(e1, true);
        assert(ext[0] == false);
        assert(ext.drop_first() =~= seq![true]);
        assert(seq![true].drop_first() =~= Seq::<bool>::empty());
        assert(edge_run(e1, seq![true]) == edge_run(e2, Seq::<bool>::empty()));
        assert(edge_run(e, ext) == edge_run(e1, seq![true]));
        assert(e2.triggered);
    }
}

impl EdgeInterrupt {
    fn new() -> (r: Self)
        ensures
            r == (EdgeInterrupt { was_high: false, triggered: false }),
    {
        Self { was_high: false, triggered: false }
    }

    fn tick(&mut self, level: bool)
        ensures
            *final(self) == edge_tick(*old(self), level),
    {
        if !self.was_high && level {
            self.triggered = true;
        }
        self.was_high = level;
    }

    fn poll(&mut self) -> (r: bool)
        ensures
            r == old(self).triggered,
            *final(self) == (EdgeInterrupt { triggered: false, ..*old(self) }),
    {
        let trigged = self.triggered;
        self.triggered = false;
        trigged
    }
}

#[derive(Debug, Clone, Copy, PartialEq, Eq, Structural)]
pub struct Interrupts {
    pub nmi: EdgeInterrupt,
    pub irq: IrqInterrupt,
    pub reset: EdgeInterrupt,
    pub power: EdgeInterrupt,
    pub triggered: Option<Triggered>,
    pub step: Option<Steps>,
    pub power_up_pc: Option<u16>,
}

/// Register state after a push of one byte: the stack pointer moves down.
pub open spec fn pushed(regs: CpuRegs) -> CpuRegs {
    CpuRegs { reg_sp: ((regs.reg_sp + 0xff) % 0x100) as u8, ..regs }
}

/// The status byte pushed by an interrupt (break bit clear, bit 5 set).
pub open spec fn pushed_status(regs: CpuRegs) -> u8 {
    regs.spec_reg_p() | 0x20
}

impl Interrupts {
    /// Partial sequences in flight keep a vector that can be incremented,
    /// and an IRQ/NMI sequence before its vector fetch still has the
    /// interrupt it is serving pending.
    pub open spec fn wf(&self) -> bool {
        &&& (self.step matches Some(Steps::Irq(Irq::ReadLowJump(a))) ==> a < 0xffff)
        &&& (self.step matches Some(Steps::Reset(Power::ReadRegPcHigh(v))) ==> v < 0xffff)
        &&& (self.step matches Some(Steps::Power(Power::ReadRegPcHigh(v))) ==> v < 0xffff)
        &&& (self.step matches Some(Steps::Reset(Power::UpdateRegPc(l))) ==> l < 0x100)
        &&& (self.step matches Some(Steps::Power(Power::UpdateRegPc(l))) ==> l < 0x100)
        &&& (self.step matches Some(Steps::Irq(s)) ==> (s is ReadPcOne || s is ReadPcTwo
            || s is WriteRegPcHigh || s is WriteRegPcLow || s is WriteRegP || s is ReadHighJump)
            ==> self.triggered is Some)
    }

    /// The lines after one cycle's levels are sampled.
    pub open spec fn ticked(self, pin: CpuPinIn) -> Interrupts {
        Interrupts {
            power: edge_tick(self.power, pin.power),
            reset: edge_tick(self.reset, pin.reset),
            nmi: edge_tick(self.nmi, pin.nmi),
            irq: IrqInterrupt { triggered: pin.irq },
            ..self
        }
    }

    pub open spec fn with_step(self, s: Steps) -> Interrupts {
        Interrupts { step: Some(s), ..self }
    }

    /// The state after the interrupt lines are sampled for this instruction.
    pub open spec fn polled(self, regs: CpuRegs) -> Interrupts {
        let t0 = raise_if(self.triggered, !regs.flag_i && self.irq.triggered, Triggered::Irq);
        let t1 = raise_if(t0, self.nmi.triggered, Triggered::Nmi);
        let t2 = raise_if(t1, self.reset.triggered, Triggered::Reset);
        let t3 = raise_if(t2, self.power.triggered, Triggered::Power);
        Interrupts {
            nmi: EdgeInterrupt { triggered: false, ..self.nmi },
            reset: EdgeInterrupt { triggered: false, ..self.reset },
            power: EdgeInterrupt { triggered: false, ..self.power },
            triggered: t3,
            ..self
        }
    }

    /// One cycle of the IRQ/NMI/BRK-style sequence; the step being run has
    /// already been taken out of `self`.
    pub open spec fn irq_step_post(self, step: Irq, pin: CpuPinIn, regs: CpuRegs) -> (
        Interrupts,
        CpuRegs,
        Option<TickResult>,
    ) {
        let pc = regs.reg_pc;
        match step {
            Irq::ReadPcOne => (self.with_step(Steps::Irq(Irq::ReadPcTwo)), regs, Some(TickResult::Read(pc))),
            Irq::ReadPcTwo => (
                self.with_step(Steps::Irq(Irq::WriteRegPcHigh)),
                regs,
                Some(TickResult::Read(pc)),
            ),
            Irq::WriteRegPcHigh => (
                self.with_step(Steps::Irq(Irq::WriteRegPcLow)),
                pushed(regs),
                Some(TickResult::Write(stack_addr(regs.reg_sp), (pc / 0x100) as u8)),
            ),
            Irq::WriteRegPcLow => (
                self.with_step(Steps::Irq(Irq::WriteRegP)),
                pushed(regs),
                Some(TickResult::Write(stack_addr(regs.reg_sp), (pc % 0x100) as u8)),
            ),
            Irq::WriteRegP => (
                self.with_step(Steps::Irq(Irq::ReadHighJump)),
                pushed(regs),
                Some(TickResult::Write(stack_addr(regs.reg_sp), pushed_status(regs))),
            ),
            Irq::ReadHighJump => {
                let p = self.polled(regs);
                let v = p.triggered.unwrap().spec_vector();
                (
                    Interrupts { triggered: None, step: Some(Steps::Irq(Irq::ReadLowJump(v))), ..p },
                    regs,
                    Some(TickResult::Read(v)),
                )
            },
            Irq::ReadLowJump(addr) => (
                self.with_step(Steps::Irq(Irq::UpdateRegPc)),
                CpuRegs { reg_pc: ((pc / 0x100) * 0x100 + pin.data) as u16, flag_i: true, ..regs },
                Some(TickResult::Read((addr + 1) as u16)),
            ),
            Irq::UpdateRegPc => (
                self,
                CpuRegs { reg_pc: (pin.data * 0x100 + pc % 0x100) as u16, ..regs },
                None,
            ),
        }
    }

    /// One cycle of the RESET sequence (or of POWER when `power` holds).
    pub open spec fn vector_step_post(self, step: Power, pin: CpuPinIn, regs: CpuRegs, power: bool) -> (
        Interrupts,
        CpuRegs,
        Option<TickResult>,
    ) {
        let wrap = |s: Power| if power { Steps::Power(s) } else { Steps::Reset(s) };
        match step {
            Power::ReadRegPcLow => {
                let t = match self.triggered {
                    Some(t) => t,
                    None => if power { Triggered::Power } else { Triggered::Reset },
                };
                let v = t.spec_vector();
                (
                    Interrupts { triggered: None, step: Some(wrap(Power::ReadRegPcHigh(v))), ..self },
                    regs,
                    Some(TickResult::Read(v)),
                )
            },
            Power::ReadRegPcHigh(v) => (
                self.with_step(wrap(Power::UpdateRegPc(pin.data as u16))),
                regs,
                Some(TickResult::Read((v + 1) as u16)),
            ),
            Power::UpdateRegPc(low) => {
                let pc = (pin.data * 0x100 + low) as u16;
                if power {
                    (
                        self,
                        CpuRegs {
                            reg_pc: match self.power_up_pc {
                                Some(a) => a,
                                None => pc,
                            },
                            reg_sp: 0xfd,
                            flag_c: false,
                            flag_z: false,
                            flag_i: true,
                            flag_d: false,
                            flag_v: false,
                            flag_s: false,
                            ..regs
                        },
                        None,
                    )
                } else {
                    (
                        self,
                        CpuRegs {
                            reg_pc: pc,
                            reg_sp: ((regs.reg_sp + 0x100 - 3) % 0x100) as u8,
                            flag_i: true,
                            ..regs
                        },
                        None,
                    )
                }
            },
        }
    }

    pub open spec fn step_post(self, step: Steps, pin: CpuPinIn, regs: CpuRegs) -> (
        Interrupts,
        CpuRegs,
        Option<TickResult>,
    ) {
        match step {
            Steps::Irq(i) => self.irq_step_post(i, pin, regs),
            Steps::Reset(p) => self.vector_step_post(p, pin, regs, false),
            Steps::Power(p) => self.vector_step_post(p, pin, regs, true),
        }
    }

    /// The first step of the sequence that serves `t`.
    pub open spec fn start_step(t: Triggered) -> Steps {
        match t {
            Triggered::Power => Steps::Power(Power::ReadRegPcLow),
            Triggered::Reset => Steps::Reset(Power::ReadRegPcLow),
            Triggered::Nmi | Triggered::Irq => Steps::Irq(Irq::ReadPcOne),
        }
    }

    /// One cycle of interrupt handling: continue the sequence in flight, or
    /// start the one for the pending interrupt, or do nothing.
    pub open spec fn interrupt_post(self, pin: CpuPinIn, regs: CpuRegs) -> (
        Interrupts,
        CpuRegs,
        Option<TickResult>,
    ) {
        match self.step {
            Some(s) => (Interrupts { step: None, ..self }).step_post(s, pin, regs),
            None => match self.triggered {
                Some(t) => self.step_post(Self::start_step(t), pin, regs),
                None => (self, regs, None),
            },
        }
    }

    pub fn new() -> (r: Self)
        ensures
            r.wf(),
            r == (Interrupts {
                nmi: EdgeInterrupt { was_high: false, triggered: false },
                irq: IrqInterrupt { triggered: false },
                reset: EdgeInterrupt { was_high: false, triggered: false },
                power: EdgeInterrupt { was_high: false, triggered: false },
                triggered: None,
                step: None,
                power_up_pc: None,
            }),
    {
        Self {
            nmi: EdgeInterrupt::new(),
            irq: IrqInterrupt::new(),
            reset: EdgeInterrupt::new(),
            power: EdgeInterrupt::new(),
            triggered: None,
            step: None,
            power_up_pc: None,
        }
    }

    /// Makes the power-up sequence jump to `pc` instead of the reset vector.
    pub fn with_power_up_pc(&mut self, pc: u16)
        ensures
            *final(self) == (Interrupts { power_up_pc: Some(pc), ..*old(self) }),
    {
        self.power_up_pc = Some(pc);
    }

    /// Samples the interrupt lines for this cycle.
    pub fn tick(&mut self, pin_in: &CpuPinIn)
        ensures
            *final(self) == old(self).ticked(*pin_in),
            old(self).wf() ==> final(self).wf(),
    {
        self.power.tick(pin_in.power);
        self.reset.tick(pin_in.reset);
        self.nmi.tick(pin_in.nmi);
        self.irq.tick(pin_in);
    }

    /// Takes the pending interrupt.
    pub fn triggered(&mut self) -> (r: Option<Triggered>)
        ensures
            r == old(self).triggered,
            *final(self) == (Interrupts { triggered: None, ..*old(self) }),
    {
        self.triggered.take()
    }

    /// Latches edges seen so far and an unmasked IRQ into the pending
    /// interrupt, keeping the highest priority one.
    pub fn poll(&mut self, regs: &CpuRegs)
        ensures
            *final(self) == old(self).polled(*regs),
            old(self).wf() ==> final(self).wf(),
            old(self).triggered is Some ==> final(self).triggered is Some,
    {
        if self.irq.poll(regs) {
            self.triggered = raise_exec(self.triggered, Triggered::Irq);
        }
        if self.nmi.poll() {
            self.triggered = raise_exec(self.triggered, Triggered::Nmi);
        }
        if self.reset.poll() {
            self.triggered = raise_exec(self.triggered, Triggered::Reset);
        }
        if self.power.poll() {
            self.triggered = raise_exec(self.triggered, Triggered::Power);
        }
    }

    /// Runs one cycle of interrupt handling; `None` means the CPU should
    /// carry on with the instruction stream.
    pub fn interrupt(&mut self, pin_in: &CpuPinIn, regs: &mut CpuRegs) -> (r: Option<TickResult>)
        requires
            old(self).wf(),
        ensures
            (*final(self), *final(regs), r) == old(self).interrupt_post(*pin_in, *old(regs)),
            final(self).wf(),
    {
        let step = if let Some(step) = self.step.take() {
            step
        } else if let Some(trigger) = &self.triggered {
            match trigger {
                Triggered::Power => Steps::Power(Power::ReadRegPcLow),
                Triggered::Reset => Steps::Reset(Power::ReadRegPcLow),
                Triggered::Nmi => Steps::Irq(Irq::ReadPcOne),
                Triggered::Irq => Steps::Irq(Irq::ReadPcOne),
            }
        } else {
            return None;
        };

        match step {
            Steps::Irq(irq) => self.irq_step(irq, pin_in, regs),
            Steps::Reset(reset) => self.reset_step(reset, pin_in, regs),
            Steps::Power(power) => self.power_step(power, pin_in, regs),
        }
    }

    #[verifier::rlimit(60)]
    fn irq_step(&mut self, step: Irq, pin_in: &CpuPinIn, regs: &mut CpuRegs) -> (r: Option<TickResult>)
        requires
            old(self).step is None,
            step matches Irq::ReadLowJump(a) ==> a < 0xffff,
            (step is ReadPcOne || step is ReadPcTwo || step is WriteRegPcHigh || step is WriteRegPcLow
                || step is WriteRegP || step is ReadHighJump) ==> old(self).triggered is Some,
        ensures
            (*final(self), *final(regs), r) == old(self).irq_step_post(step, *pin_in, *old(regs)),
            final(self).wf(),
    {
        let next_step;
        let tick = match step {
            Irq::ReadPcOne => {
                next_step = Irq::ReadPcTwo;
                TickResult::Read(regs.reg_pc)
            },
            Irq::ReadPcTwo => {
                next_step = Irq::WriteRegPcHigh;
                TickResult::Read(regs.reg_pc)
            },
            Irq::WriteRegPcHigh => {
                next_step = Irq::WriteRegPcLow;
                let pc = regs.reg_pc;
                let val = (pc >> 8) & 0xff;
                proof { crate::bits::lemma_u16(pc); }
                regs.push_stack(val as u8)
            },
            Irq::WriteRegPcLow => {
                next_step = Irq::WriteRegP;
                let pc = regs.reg_pc;
                let val = pc & 0xff;
                proof { crate::bits::lemma_u16(pc); }
                regs.push_stack(val as u8)
            },
            Irq::WriteRegP => {
                next_step = Irq::ReadHighJump;
                let val = regs.reg_p() | 0x20;
                regs.push_stack(val)
            },
            Irq::ReadHighJump => {
                self.poll(regs);
                let triggered = self.triggered.take().unwrap();
                let addr = triggered.vector();
                next_step = Irq::ReadLowJump(addr);
                TickResult::Read(addr)
            },
            Irq::ReadLowJump(addr) => {
                next_step = Irq::UpdateRegPc;
                let old_pc = regs.reg_pc;
                regs.reg_pc &= 0xff00;
                regs.reg_pc |= pin_in.data as u16;
                let d = pin_in.data;
                proof { crate::bits::lemma_u16_u8(old_pc, d); }
                regs.flag_i = true;
                TickResult::Read(addr + 1)
            },
            Irq::UpdateRegPc => {
                let old_pc = regs.reg_pc;
                regs.reg_pc &= 0x00ff;
                regs.reg_pc |= (pin_in.data as u16) << 8;
                let d = pin_in.data;
                proof { crate::bits::lemma_u16_u8(old_pc, d); }
                return None;
            },
        };

        self.step = Some(Steps::Irq(next_step));

        Some(tick)
    }

    fn reset_step(&mut self, step: Power, pin_in: &CpuPinIn, regs: &mut CpuRegs) -> (r: Option<TickResult>)
        requires
            old(self).step is None,
            step matches Power::ReadRegPcHigh(v) ==> v < 0xffff,
            step matches Power::UpdateRegPc(l) ==> l < 0x100,
        ensures
            (*final(self), *final(regs), r) == old(self).vector_step_post(step, *pin_in, *old(regs), false),
            final(self).wf(),
    {
        let next_step;
        let tick = match step {
            Power::ReadRegPcLow => {
                let trigger = match self.triggered.take() {
                    Some(t) => t,
                    None => Triggered::Reset,
                };
                let vector = trigger.vector();
                next_step = Power::ReadRegPcHigh(vector);
                TickResult::Read(vector)
            },
            Power::ReadRegPcHigh(vector) => {
                next_step = Power::UpdateRegPc(pin_in.data as u16);
                TickResult::Read(vector + 1)
            },
            Power::UpdateRegPc(low_addr) => {
                let high_addr = (pin_in.data as u16) << 8;
                let d = pin_in.data;
                proof { crate::bits::lemma_u16_u8(low_addr, d); }
                regs.reg_pc = low_addr | high_addr;
                regs.reg_sp = regs.reg_sp.wrapping_sub(3);
                regs.flag_i = true;
                return None;
            },
        };

        self.step = Some(Steps::Reset(next_step));

        Some(tick)
    }

    fn power_step(&mut self, step: Power, pin_in: &CpuPinIn, regs: &mut CpuRegs) -> (r: Option<TickResult>)
        requires
            old(self).step is None,
            step matches Power::ReadRegPcHigh(v) ==> v < 0xffff,
            step matches Power::UpdateRegPc(l) ==> l < 0x100,
        ensures
            (*final(self), *final(regs), r) == old(self).vector_step_post(step, *pin_in, *old(regs), true),
            final(self).wf(),
    {
        let next_step;
        let tick = match step {
            Power::ReadRegPcLow => {
                let trigger = match self.triggered.take() {
                    Some(t) => t,
                    None => Triggered::Power,
                };
                let vector = trigger.vector();
                next_step = Power::ReadRegPcHigh(vector);
                TickResult::Read(vector)
            },
            Power::ReadRegPcHigh(vector) => {
                next_step = Power::UpdateRegPc(pin_in.data as u16);
                TickResult::Read(vector + 1)
            },
            Power::UpdateRegPc(low_addr) => {
                let high_addr = (pin_in.data as u16) << 8;
                let d = pin_in.data;
                proof { crate::bits::lemma_u16_u8(low_addr, d); }
                regs.reg_pc = low_addr | high_addr;
                proof { crate::bits::lemma_u8(0x34); }
                regs.set_reg_p(0x34);
                regs.reg_sp = 0xfd;
                if let Some(addr) = self.power_up_pc {
                    regs.reg_pc = addr;
                }
                return None;
            },
        };

        self.step = Some(Steps::Power(next_step));

        Some(tick)
    }
}


/// The lines after a run of cycles at the given pin levels.
pub open spec fn ticks_run(i: Interrupts, pins: Seq<CpuPinIn>) -> Interrupts
    decreases pins.len(),
{
    if pins.len() == 0 {
        i
    } else {
        ticks_run(i.ticked(pins[0]), pins.drop_first())
    }
}

/// A cycle with NMI high and the IRQ, reset and power lines low.
pub open spec fn nmi_only(pin: CpuPinIn) -> bool {
    pin.nmi && !pin.irq && !pin.reset && !pin.power
}

/// A run of NMI-only cycles keeps the NMI line high, raises its trigger
/// only if the line was low before the run, and leaves the other lines
/// quiet and the pending interrupt as it was.
proof fn lemma_nmi_only_run(i: Interrupts, pins: Seq<CpuPinIn>)
    requires
        pins.len() > 0,
        forall|k: int| 0 <= k < pins.len() ==> nmi_only(#[trigger] pins[k]),
        !i.reset.triggered,
        !i.power.triggered,
    ensures
        ticks_run(i, pins).nmi.was_high,
        ticks_run(i, pins).nmi.triggered == (i.nmi.triggered || !i.nmi.was_high),
        !ticks_run(i, pins).reset.triggered,
        !ticks_run(i, pins).power.triggered,
        !ticks_run(i, pins).irq.triggered,
        ticks_run(i, pins).triggered == i.triggered,
    decreases pins.len(),
{
    let j = i.ticked(pins[0]);
    assert(nmi_only(pins[0]));
    let rest = pins.drop_first();
    if rest.len() > 0 {
        assert forall|k: int| 0 <= k < rest.len() implies nmi_only(#[trigger] rest[k]) by {
            assert(rest[k] == pins[k + 1]);
        }
        lemma_nmi_only_run(j, rest);
    }
}

/// One NMI per rising edge: with the IRQ, reset and power lines low and no
/// interrupt pending, a run of cycles with NMI high that starts from a low
/// line makes the next poll latch exactly an NMI; once it is taken, any
/// number of further cycles with NMI still high latch nothing at the next
/// poll.
pub proof fn lemma_nmi_once_per_edge(
    i: Interrupts,
    regs: CpuRegs,
    first: Seq<CpuPinIn>,
    more: Seq<CpuPinIn>,
)
    requires
        !i.nmi.was_high,
        !i.nmi.triggered,
        !i.reset.triggered,
        !i.power.triggered,
        i.triggered is None,
        first.len() > 0,
        forall|k: int| 0 <= k < first.len() ==> nmi_only(#[trigger] first[k]),
        forall|k: int| 0 <= k < more.len() ==> nmi_only(#[trigger] more[k]),
    ensures
        ticks_run(i, first).polled(regs).triggered == Some(Triggered::Nmi),
        ({
            let taken = Interrupts { triggered: None, ..ticks_run(i, first).polled(regs) };
            ticks_run(taken, more).polled(regs).triggered is None
        }),
{
    lemma_nmi_only_run(i, first);
    let p = ticks_run(i, first).polled(regs);
    let taken = Interrupts { triggered: None, ..p };
    if more.len() > 0 {
        lemma_nmi_only_run(taken, more);
    }
}

} // verus!
