//! Debugger support: a scratch memory window on the CPU bus, the dot
//! colouring and instruction-logging countdowns, and the last CPU / PPU
//! snapshots handed to breakpoint handlers.
use vstd::prelude::*;

use crate::bus::{AddressBus, DeviceKind, MappingFn, RangeAndMask};
use crate::cpu::CpuDebugState;
use crate::memory::{Memory, MemoryBlock};
use crate::ppu::PpuDebugState;

verus! {

/// The last CPU and PPU snapshots seen by the debugger.
#[derive(Debug, Clone, Copy)]
pub struct MachineState {
    pub cpu: CpuDebugState,
    pub ppu: PpuDebugState,
}

/// All registers and counters zero, no instruction address.
pub open spec fn blank_cpu() -> CpuDebugState {
    CpuDebugState {
        reg_a: 0,
        reg_x: 0,
        reg_y: 0,
        reg_pc: 0,
        reg_sp: 0,
        reg_p: 0,
        instruction_addr: None,
        cycle: 0,
    }
}

impl Default for MachineState {
    fn default() -> (r: MachineState)
        ensures
            r.cpu == blank_cpu(),
            r.ppu.tick == 0 && r.ppu.scanline == 0 && r.ppu.dot == 0,
            !r.ppu.vblank && !r.ppu.nmi && !r.ppu.sprite_zero_hit,
            r.ppu.registers@ == seq![0u8, 0, 0, 0, 0, 0, 0, 0],
    {
        let r = MachineState {
            cpu: CpuDebugState {
                reg_a: 0,
                reg_x: 0,
                reg_y: 0,
                reg_pc: 0,
                reg_sp: 0,
                reg_p: 0,
                instruction_addr: None,
                cycle: 0,
            },
            ppu: PpuDebugState {
                tick: 0,
                scanline: 0,
                dot: 0,
                vblank: false,
                nmi: false,
                sprite_zero_hit: false,
                registers: [0u8; 8],
            },
        };
        assert(r.ppu.registers@ =~= seq![0u8, 0, 0, 0, 0, 0, 0, 0]);
        r
    }
}

/// Decides whether execution should stop, given the machine's state.
pub trait BreakpointHandler {
    fn breakpoint(&self, state: &MachineState) -> bool;
}

/// The debugger's counters and snapshots.
#[derive(Clone, Copy)]
pub struct DebugState {
    /// Instructions still to be logged.
    pub trace_instrs: u32,
    /// Dots still to be coloured.
    pub color_dots: u32,
    /// Whether the one-time logging window was used.
    pub log_once: bool,
    /// The instruction addresses, inclusive, whose execution is logged.
    pub log_range: Option<(u16, u16)>,
    /// Whether the last instruction lay in the logged range.
    pub logging_range: bool,
    pub machine_state: MachineState,
}

impl DebugState {
    fn new() -> (r: DebugState)
        ensures
            r.trace_instrs == 0,
            r.color_dots == 0,
            !r.log_once,
            r.log_range is None,
            !r.logging_range,
            r.machine_state.cpu == blank_cpu(),
    {
        DebugState {
            trace_instrs: 0,
            color_dots: 0,
            log_once: false,
            log_range: None,
            logging_range: false,
            machine_state: MachineState::default(),
        }
    }
}

pub struct Debug {
    state: DebugState,
    mem: Option<MemoryBlock>,
}

impl View for Debug {
    /// The counters and snapshots, and the scratch window's bytes if one
    /// is registered.
    type V = (DebugState, Option<Seq<u8>>);

    closed spec fn view(&self) -> (DebugState, Option<Seq<u8>>) {
        (self.state, match &self.mem {
            Some(m) => Some(m@),
            None => None,
        })
    }
}

impl Debug {
    pub closed spec fn wf(&self) -> bool {
        self.mem matches Some(m) ==> m@.len() > 0
    }

    /// No memory window, nothing pending, blank snapshots.
    pub fn new() -> (r: Self)
        ensures
            r.wf(),
            r@.1 is None,
            r@.0.trace_instrs == 0,
            r@.0.color_dots == 0,
            !r@.0.log_once,
            r@.0.log_range is None,
            !r@.0.logging_range,
            r@.0.machine_state.cpu == blank_cpu(),
    {
        Self { state: DebugState::new(), mem: None }
    }

    /// Maps a zeroed window of `size_kb` kilobytes at `addr` for reads and
    /// writes. The range registered runs from `addr` to `2 * addr` plus the
    /// window's size, and addresses are masked to the window.
    pub fn register(&mut self, bus: &mut AddressBus, addr: u16, size_kb: u16)
        requires
            1 <= size_kb,
            2 * addr + size_kb * 0x400 <= 0xffff,
        ensures
            final(self).wf(),
            final(self)@.1 == Some(Seq::new((size_kb * 1024) as nat, |i: int| 0u8)),
            final(self)@.0 == old(self)@.0,
            ({
                let f = MappingFn::RangeAndMask(
                    RangeAndMask(addr, (2 * addr + size_kb * 0x400) as u16, (size_kb * 0x400 - 1) as u16),
                );
                &&& final(bus).reads() == old(bus).reads().push((f, DeviceKind::Debug))
                &&& final(bus).writes() == old(bus).writes().push((f, DeviceKind::Debug))
            }),
            final(bus).spec_block_size() == old(bus).spec_block_size(),
            final(bus).spec_mask() == old(bus).spec_mask(),
            final(bus).spec_open_bus() == old(bus).spec_open_bus(),
    {
        let size: u16 = size_kb * 0x400;
        let end: u16 = addr + size;
        let mask: u16 = size - 1;
        let m = MemoryBlock::new(size_kb as usize);
        self.mem = Some(m);
        bus.register_read(DeviceKind::Debug, RangeAndMask(addr, addr + end, mask).into());
        bus.register_write(DeviceKind::Debug, RangeAndMask(addr, addr + end, mask).into());
    }

    /// A byte of the window, addresses wrapping at its size; 0 without one.
    pub fn read(&self, addr: u16) -> (r: u8)
        requires
            self.wf(),
        ensures
            r == match self@.1 {
                Some(m) => m[(addr as int) % (m.len() as int)],
                None => 0u8,
            },
    {
        match &self.mem {
            Some(mem) => mem.read(addr as usize),
            None => 0x00,
        }
    }

    /// Stores a byte in the window; ignored without one.
    pub fn write(&mut self, addr: u16, value: u8)
        requires
            old(self).wf(),
        ensures
            final(self).wf(),
            final(self)@.0 == old(self)@.0,
            final(self)@.1 == match old(self)@.1 {
                Some(m) => Some(m.update((addr as int) % (m.len() as int), value)),
                None => None,
            },
    {
        match &mut self.mem {
            Some(mem) => {
                mem.write(addr as usize, value);
            },
            None => {},
        }
    }

    /// Colours the next `count` dots.
    pub fn color_for(&mut self, count: u32)
        ensures
            final(self)@.0.color_dots == count,
            final(self)@.0 == (DebugState { color_dots: count, ..old(self)@.0 }),
            final(self)@.1 == old(self)@.1,
    {
        self.state.color_dots = count;
    }

    /// Whether this dot is coloured; each coloured dot uses one of the count.
    pub fn color(&mut self) -> (r: bool)
        ensures
            r == (old(self)@.0.color_dots != 0),
            final(self)@.0 == (DebugState {
                color_dots: if r { (old(self)@.0.color_dots - 1) as u32 } else { 0 },
                ..old(self)@.0
            }),
            final(self)@.1 == old(self)@.1,
    {
        if self.state.color_dots != 0 {
            self.state.color_dots = self.state.color_dots - 1;
            true
        } else {
            false
        }
    }

    /// Logs the next `count` instructions, the first time only.
    pub fn log_once_for(&mut self, count: u32)
        ensures
            final(self)@.0 == if old(self)@.0.log_once {
                old(self)@.0
            } else {
                DebugState { log_once: true, trace_instrs: count, ..old(self)@.0 }
            },
            final(self)@.1 == old(self)@.1,
    {
        if !self.state.log_once {
            self.state.log_once = true;
            self.state.trace_instrs = count;
        }
    }

    /// Logs the next `count` instructions.
    pub fn log_for(&mut self, count: u32)
        ensures
            final(self)@.0 == (DebugState { trace_instrs: count, ..old(self)@.0 }),
            final(self)@.1 == old(self)@.1,
    {
        self.state.trace_instrs = count;
    }

    /// Logs every instruction whose address lies in `start_addr..=end_addr`.
    pub fn log_range(&mut self, start_addr: u16, end_addr: u16)
        ensures
            final(self)@.0 == (DebugState { log_range: Some((start_addr, end_addr)), ..old(self)@.0 }),
            final(self)@.1 == old(self)@.1,
    {
        self.state.log_range = Some((start_addr, end_addr));
    }

    /// Records the CPU snapshot of an executed instruction and says whether
    /// it is to be logged: while instructions remain to be logged (one is
    /// used up) or while its address lies in the logged range.
    pub fn trace(&mut self, cpu: CpuDebugState) -> (r: bool)
        ensures
            final(self)@.1 == old(self)@.1,
            final(self)@.0.machine_state == (MachineState { cpu, ..old(self)@.0.machine_state }),
            final(self)@.0.log_range == old(self)@.0.log_range,
            final(self)@.0.log_once == old(self)@.0.log_once,
            final(self)@.0.color_dots == old(self)@.0.color_dots,
            match cpu.instruction_addr {
                None => !r && final(self)@.0.trace_instrs == old(self)@.0.trace_instrs
                    && final(self)@.0.logging_range == old(self)@.0.logging_range,
                Some(a) => {
                    let in_range = match old(self)@.0.log_range {
                        Some((s, e)) => s <= a && a <= e,
                        None => false,
                    };
                    &&& final(self)@.0.logging_range == in_range
                    &&& r == (old(self)@.0.trace_instrs != 0 || in_range)
                    &&& final(self)@.0.trace_instrs == if old(self)@.0.trace_instrs != 0 {
                        (old(self)@.0.trace_instrs - 1) as u32
                    } else {
                        0
                    }
                },
            },
    {
        self.state.machine_state.cpu = cpu;
        let mut log = false;
        match cpu.instruction_addr {
            Some(inst_addr) => {
                self.state.logging_range = match self.state.log_range {
                    Some((start, end)) => inst_addr >= start && inst_addr <= end,
                    None => false,
                };
                if self.state.trace_instrs != 0 || self.state.logging_range {
                    log = true;
                    if self.state.trace_instrs != 0 {
                        self.state.trace_instrs = self.state.trace_instrs - 1;
                    }
                }
            },
            None => {},
        }
        log
    }

    /// Records the PPU snapshot.
    pub fn trace_ppu(&mut self, ppu: PpuDebugState)
        ensures
            final(self)@.1 == old(self)@.1,
            final(self)@.0 == (DebugState {
                machine_state: MachineState { ppu, ..old(self)@.0.machine_state },
                ..old(self)@.0
            }),
    {
        self.state.machine_state.ppu = ppu;
    }

    /// A copy of the last snapshots.
    pub fn machine_state(&self) -> (r: MachineState)
        ensures
            r == self@.0.machine_state,
    {
        self.state.machine_state
    }

    /// Asks the handler whether to stop, with the last snapshots.
    pub fn breakpoint<H: BreakpointHandler>(&self, handler: &H) -> (r: bool) {
        handler.breakpoint(&self.state.machine_state)
    }
}

} // verus!
