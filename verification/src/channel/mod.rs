//! The four 2A03 tone channels and the DMC sample channel.
use vstd::prelude::*;

pub mod dmc;
pub mod noise;
pub mod pulse;
pub mod triangle;

use crate::apu::ApuSnapshot;
use crate::bus::AddressBus;

verus! {

/// One call made on an APU channel: a register write, $4015 turning it on
/// or off, a forced frame clock ($4017), or one cycle over a
/// frame-sequencer snapshot.
pub enum ChannelCall {
    Write(u16, u8),
    Enable,
    Disable,
    ForcedClock,
    Tick(ApuSnapshot),
}

/// An APU channel: four write-only registers, a per-cycle output level and
/// an enable bit from $4015.
pub trait Channel {
    /// The channel's counters are far from overflowing.
    spec fn can_tick(&self) -> bool;

    fn register(&self, cpu: &mut AddressBus);

    fn write(&mut self, addr: u16, value: u8)
        requires
            addr < 4,
    ;

    fn tick(&mut self, state: ApuSnapshot) -> u8
        requires
            old(self).can_tick(),
    ;

    fn enable(&mut self);

    fn disable(&mut self);

    fn get_state(&self) -> bool;
}

} // verus!
