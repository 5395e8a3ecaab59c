//! The 6502 core's building blocks: the register file, the interrupt
//! sequencer and the DMA unit that steals CPU cycles.
use vstd::prelude::*;

pub mod dma;
pub mod interrupts;
pub mod registers;

verus! {

/// The CPU's input pins for one cycle.
#[derive(Debug, Copy, Clone, PartialEq, Eq, Structural)]
pub struct CpuPinIn {
    pub data: u8,
    pub irq: bool,
    pub reset: bool,
    pub power: bool,
    pub nmi: bool,
}

impl CpuPinIn {
    pub fn new() -> (r: CpuPinIn)
        ensures
            r == (CpuPinIn { data: 0, irq: false, reset: false, power: false, nmi: false }),
    {
        CpuPinIn { data: 0, irq: false, reset: false, power: false, nmi: false }
    }
}

/// What the CPU drives onto the bus in one cycle.
#[derive(Debug, Copy, Clone, PartialEq, Eq, Structural)]
pub enum TickResult {
    Fetch(u16),
    Read(u16),
    Write(u16, u8),
    Idle(u16),
}

/// A snapshot of the registers for a debugger view.
#[derive(Debug, Copy, Clone, PartialEq, Eq, Structural)]
pub struct CpuDebugState {
    pub reg_a: u8,
    pub reg_x: u8,
    pub reg_y: u8,
    pub reg_pc: u16,
    pub reg_sp: u8,
    pub reg_p: u8,
    pub instruction_addr: Option<u16>,
    pub cycle: u64,
}

} // verus!
