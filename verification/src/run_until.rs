//! Stop conditions for running the machine: count down cycles,
//! instructions, samples, dots, scanlines or frames, or combine two.
use vstd::prelude::*;

verus! {

/// An event a running machine reports to its stop condition.
#[derive(Debug, Copy, Clone, PartialEq, Eq, Structural)]
pub enum RunEvent {
    Cycle,
    Instruction,
    Sample,
    Dot,
    Scanline,
    Frame,
}

/// A countdown that the machine ticks as events happen.
pub trait RunUntil: Sized {
    spec fn spec_done(&self) -> bool;

    /// The condition once one more `event` has happened.
    spec fn counted(&self, event: RunEvent) -> Self;

    fn add_cycle(&mut self)
        ensures
            *final(self) == old(self).counted(RunEvent::Cycle),
    ;

    fn add_instruction(&mut self)
        ensures
            *final(self) == old(self).counted(RunEvent::Instruction),
    ;

    fn add_sample(&mut self)
        ensures
            *final(self) == old(self).counted(RunEvent::Sample),
    ;

    fn add_dot(&mut self)
        ensures
            *final(self) == old(self).counted(RunEvent::Dot),
    ;

    fn add_scanline(&mut self)
        ensures
            *final(self) == old(self).counted(RunEvent::Scanline),
    ;

    fn add_frame(&mut self)
        ensures
            *final(self) == old(self).counted(RunEvent::Frame),
    ;

    fn done(&self) -> (r: bool)
        ensures
            r == self.spec_done(),
    ;
}

/// The condition after `n` more events of one kind.
pub open spec fn counted_times<U: RunUntil>(u: U, event: RunEvent, n: nat) -> U
    decreases n,
{
    if n == 0 {
        u
    } else {
        counted_times(u.counted(event), event, (n - 1) as nat)
    }
}

/// Stops when either condition is met.
pub fn or<A: RunUntil, B: RunUntil>(a: A, b: B) -> (r: (A, B))
    ensures
        r == (a, b),
        r.spec_done() == (a.spec_done() || b.spec_done()),
{
    (a, b)
}

/// One fewer, stopping at zero.
pub open spec fn count_down(n: u32) -> u32 {
    if n == 0 { 0 } else { (n - 1) as u32 }
}

#[derive(Debug, Copy, Clone, PartialEq, Eq, Structural)]
pub struct Cycles(pub u32);

impl RunUntil for Cycles {
    open spec fn spec_done(&self) -> bool {
        self.0 == 0
    }

    /// Only its own kind of event counts it down.
    open spec fn counted(&self, event: RunEvent) -> Self {
        if event == RunEvent::Cycle {
            Cycles(count_down(self.0))
        } else {
            *self
        }
    }

    fn add_instruction(&mut self) {
    }

    fn add_sample(&mut self) {
    }

    fn add_dot(&mut self) {
    }

    fn add_scanline(&mut self) {
    }

    fn add_frame(&mut self) {
    }

    fn add_cycle(&mut self)
        ensures
            final(self).0 == count_down(old(self).0),
    {
        self.0 = self.0.saturating_sub(1);
    }

    fn done(&self) -> (r: bool) {
        self.0 == 0
    }
}

#[derive(Debug, Copy, Clone, PartialEq, Eq, Structural)]
pub struct Instructions(pub u32);

impl RunUntil for Instructions {
    open spec fn spec_done(&self) -> bool {
        self.0 == 0
    }

    /// Only its own kind of event counts it down.
    open spec fn counted(&self, event: RunEvent) -> Self {
        if event == RunEvent::Instruction {
            Instructions(count_down(self.0))
        } else {
            *self
        }
    }

    fn add_cycle(&mut self) {
    }

    fn add_sample(&mut self) {
    }

    fn add_dot(&mut self) {
    }

    fn add_scanline(&mut self) {
    }

    fn add_frame(&mut self) {
    }

    fn add_instruction(&mut self)
        ensures
            final(self).0 == count_down(old(self).0),
    {
        self.0 = self.0.saturating_sub(1);
    }

    fn done(&self) -> (r: bool) {
        self.0 == 0
    }
}

#[derive(Debug, Copy, Clone, PartialEq, Eq, Structural)]
pub struct Samples(pub u32);

impl RunUntil for Samples {
    open spec fn spec_done(&self) -> bool {
        self.0 == 0
    }

    /// Only its own kind of event counts it down.
    open spec fn counted(&self, event: RunEvent) -> Self {
        if event == RunEvent::Sample {
            Samples(count_down(self.0))
        } else {
            *self
        }
    }

    fn add_cycle(&mut self) {
    }

    fn add_instruction(&mut self) {
    }

    fn add_dot(&mut self) {
    }

    fn add_scanline(&mut self) {
    }

    fn add_frame(&mut self) {
    }

    fn add_sample(&mut self)
        ensures
            final(self).0 == count_down(old(self).0),
    {
        self.0 = self.0.saturating_sub(1);
    }

    fn done(&self) -> (r: bool) {
        self.0 == 0
    }
}

#[derive(Debug, Copy, Clone, PartialEq, Eq, Structural)]
pub struct Dots(pub u32);

impl RunUntil for Dots {
    open spec fn spec_done(&self) -> bool {
        self.0 == 0
    }

    /// Only its own kind of event counts it down.
    open spec fn counted(&self, event: RunEvent) -> Self {
        if event == RunEvent::Dot {
            Dots(count_down(self.0))
        } else {
            *self
        }
    }

    fn add_cycle(&mut self) {
    }

    fn add_instruction(&mut self) {
    }

    fn add_sample(&mut self) {
    }

    fn add_scanline(&mut self) {
    }

    fn add_frame(&mut self) {
    }

    fn add_dot(&mut self)
        ensures
            final(self).0 == count_down(old(self).0),
    {
        self.0 = self.0.saturating_sub(1);
    }

    fn done(&self) -> (r: bool) {
        self.0 == 0
    }
}

#[derive(Debug, Copy, Clone, PartialEq, Eq, Structural)]
pub struct Scanlines(pub u32);

impl RunUntil for Scanlines {
    open spec fn spec_done(&self) -> bool {
        self.0 == 0
    }

    /// Only its own kind of event counts it down.
    open spec fn counted(&self, event: RunEvent) -> Self {
        if event == RunEvent::Scanline {
            Scanlines(count_down(self.0))
        } else {
            *self
        }
    }

    fn add_cycle(&mut self) {
    }

    fn add_instruction(&mut self) {
    }

    fn add_sample(&mut self) {
    }

    fn add_dot(&mut self) {
    }

    fn add_frame(&mut self) {
    }

    fn add_scanline(&mut self)
        ensures
            final(self).0 == count_down(old(self).0),
    {
        self.0 = self.0.saturating_sub(1);
    }

    fn done(&self) -> (r: bool) {
        self.0 == 0
    }
}

#[derive(Debug, Copy, Clone, PartialEq, Eq, Structural)]
pub struct Frames(pub u32);

impl RunUntil for Frames {
    open spec fn spec_done(&self) -> bool {
        self.0 == 0
    }

    /// Only its own kind of event counts it down.
    open spec fn counted(&self, event: RunEvent) -> Self {
        if event == RunEvent::Frame {
            Frames(count_down(self.0))
        } else {
            *self
        }
    }

    fn add_cycle(&mut self) {
    }

    fn add_instruction(&mut self) {
    }

    fn add_sample(&mut self) {
    }

    fn add_dot(&mut self) {
    }

    fn add_scanline(&mut self) {
    }

    fn add_frame(&mut self)
        ensures
            final(self).0 == count_down(old(self).0),
    {
        self.0 = self.0.saturating_sub(1);
    }

    fn done(&self) -> (r: bool) {
        self.0 == 0
    }
}

impl<T: RunUntil, U: RunUntil> RunUntil for (T, U) {
    open spec fn spec_done(&self) -> bool {
        self.0.spec_done() || self.1.spec_done()
    }

    /// Both conditions count every event.
    open spec fn counted(&self, event: RunEvent) -> Self {
        (self.0.counted(event), self.1.counted(event))
    }

    fn add_instruction(&mut self) {
        self.0.add_instruction();
        self.1.add_instruction();
    }

    fn add_cycle(&mut self) {
        self.0.add_cycle();
        self.1.add_cycle();
    }

    fn add_sample(&mut self) {
        self.0.add_sample();
        self.1.add_sample();
    }

    fn add_dot(&mut self) {
        self.0.add_dot();
        self.1.add_dot();
    }

    fn add_scanline(&mut self) {
        self.0.add_scanline();
        self.1.add_scanline();
    }

    fn add_frame(&mut self) {
        self.0.add_frame();
        self.1.add_frame();
    }

    fn done(&self) -> (r: bool) {
        self.0.done() || self.1.done()
    }
}

/// `k` counted events leave `n - k` to go, so a countdown started at `n`
/// is done after exactly `n` events and not before.
pub open spec fn after_events(n: u32, k: nat) -> u32
    decreases k,
{
    if k == 0 { n } else { count_down(after_events(n, (k - 1) as nat)) }
}

pub proof fn lemma_done_after_n(n: u32, k: nat)
    ensures
        after_events(n, k) == if k >= n { 0 } else { (n - k) as u32 },
    decreases k,
{
    if k > 0 {
        lemma_done_after_n(n, (k - 1) as nat);
    }
}

} // verus!
