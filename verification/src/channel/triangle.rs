//! Triangle channel: a 32-step ramp clocked by the timer while both the
//! linear counter and the length counter are running.
use vstd::prelude::*;

use crate::apu::{length_load_value, ApuSnapshot, LENGTH_TABLE};
use crate::bits::{lemma_u64, lemma_u8, lemma_u8_pair};
use crate::bus::{AddressBus, AndEqualsAndMask, DeviceKind, MappingFn};
use crate::channel::{Channel, ChannelCall};

verus! {

/// The output level at a sequencer position: 15 down to 0, then 0 up to 15.
pub open spec fn triangle_level(sequencer: u32) -> u8 {
    let s = sequencer % 32;
    if s < 16 { (15 - s) as u8 } else { (s - 16) as u8 }
}

pub struct Triangle {
    timer_counter: u16,
    linear_counter: u8,
    linear_reload: bool,
    length_counter: u8,
    sequencer: u32,
    enabled: bool,
    regs: [u8; 4],
    current_tick: u64,
    forced_clock: bool,
}

impl Triangle {
    /// The channel after $4015 turns it on (`on`) or off: off also clears
    /// the length counter; nothing else changes.
    pub closed spec fn switched(self, on: bool) -> Self {
        if on {
            Self { enabled: true, ..self }
        } else {
            Self { enabled: false, length_counter: 0, ..self }
        }
    }

    /// The channel once a forced frame clock is requested.
    pub closed spec fn forced(self) -> Self {
        Self { forced_clock: true, ..self }
    }

    /// `self` is what a write of `value` to register `addr` leaves of
    /// `old`: register 3 loads the length counter (0 while the channel is
    /// off) and requests a linear reload.
    pub closed spec fn written_from(self, old: Self, addr: u16, value: u8) -> bool {
        &&& self.regs@ == old.regs@.update(addr as int, value)
        &&& self == Self {
            regs: self.regs,
            length_counter: if addr == 3 { self.spec_length_load() } else { old.length_counter },
            linear_reload: if addr == 3 { true } else { old.linear_reload },
            ..old
        }
    }

    /// `next` is what `call` leaves of the channel.
    pub open spec fn called(self, call: ChannelCall, next: Self) -> bool {
        match call {
            ChannelCall::Write(addr, value) => addr < 4 && next.written_from(self, addr, value),
            ChannelCall::Enable => next == self.switched(true),
            ChannelCall::Disable => next == self.switched(false),
            ChannelCall::ForcedClock => next == self.forced(),
            ChannelCall::Tick(state) => next == self.tick_post(state).0,
        }
    }

    /// CPU cycles the channel has run.
    pub closed spec fn ticks(&self) -> u64 {
        self.current_tick
    }

    pub closed spec fn spec_regs(&self) -> Seq<u8> {
        self.regs@
    }

    pub closed spec fn spec_length_counter(&self) -> u8 {
        self.length_counter
    }

    pub closed spec fn spec_linear_counter(&self) -> u8 {
        self.linear_counter
    }

    /// The timer's countdown to the next sequencer step.
    pub closed spec fn spec_timer_counter(&self) -> u16 {
        self.timer_counter
    }

    pub closed spec fn spec_sequencer(&self) -> u32 {
        self.sequencer
    }

    pub closed spec fn spec_enabled(&self) -> bool {
        self.enabled
    }

    pub closed spec fn spec_forced_clock(&self) -> bool {
        self.forced_clock
    }

    pub open spec fn spec_timer_load(&self) -> u16 {
        (self.spec_regs()[2] + (self.spec_regs()[3] % 8) * 0x100) as u16
    }

    pub open spec fn spec_linear_load(&self) -> u8 {
        self.spec_regs()[0] % 0x80
    }

    pub closed spec fn spec_length_load(&self) -> u8 {
        if !self.enabled { 0 } else { LENGTH_TABLE@[(self.regs@[3] / 8) as int] }
    }

    pub open spec fn spec_halt(&self) -> bool {
        self.spec_regs()[0] >= 0x80
    }

    /// One APU cycle and the level it outputs.
    pub closed spec fn tick_post(self, state: ApuSnapshot) -> (Triangle, u8) {
        let tick = (self.current_tick + 1) as u64;
        let s0 = Triangle { current_tick: tick, ..self };
        let s1 = if s0.timer_counter == 0 {
            Triangle {
                timer_counter: s0.spec_timer_load(),
                sequencer: if s0.length_counter != 0 && s0.linear_counter != 0 {
                    ((s0.sequencer + 1) % 0x1_0000_0000) as u32
                } else {
                    s0.sequencer
                },
                ..s0
            }
        } else {
            Triangle { timer_counter: (s0.timer_counter - 1) as u16, ..s0 }
        };
        let s2 = if (state.is_quarter_frame || self.forced_clock) && tick % 2 == 0 {
            let lin = if s1.linear_reload {
                s1.spec_linear_load()
            } else if s1.linear_counter != 0 {
                (s1.linear_counter - 1) as u8
            } else {
                s1.linear_counter
            };
            Triangle {
                linear_counter: lin,
                linear_reload: if !s1.spec_halt() { false } else { s1.linear_reload },
                ..s1
            }
        } else {
            s1
        };
        let s3 = if (state.is_half_frame || self.forced_clock) && s2.length_counter != 0
            && !s2.spec_halt() {
            Triangle { length_counter: (s2.length_counter - 1) as u8, ..s2 }
        } else {
            s2
        };
        let s4 = Triangle { forced_clock: false, ..s3 };
        (s4, triangle_level(s4.sequencer))
    }

    pub fn new() -> (r: Triangle)
        ensures
            r.spec_regs() == seq![0u8, 0, 0, 0],
            r.spec_length_counter() == 0,
            r.spec_linear_counter() == 0,
            r.spec_sequencer() == 0,
            !r.spec_enabled(),
            r.can_tick(),
            r.ticks() == 0,
    {
        Triangle {
            timer_counter: 0,
            linear_counter: 0,
            linear_reload: false,
            length_counter: 0,
            sequencer: 0,
            enabled: false,
            regs: [0; 4],
            current_tick: 0,
            forced_clock: false,
        }
    }

    /// Makes the next cycle clock the linear and length counters.
    pub fn forced_clock(&mut self)
        ensures
            *final(self) == old(self).forced(),
            final(self).spec_forced_clock(),
            final(self).can_tick() == old(self).can_tick(),
            final(self).ticks() == old(self).ticks(),
    {
        self.forced_clock = true;
    }

    fn timer_load(&self) -> (r: u16)
        ensures
            r == self.spec_timer_load(),
    {
        let lo = self.regs[2];
        let hi = self.regs[3];
        proof { lemma_u8_pair(lo, hi); }
        (lo as u16) | ((hi as u16 & 7) << 8)
    }

    fn linear_load(&self) -> (r: u8)
        ensures
            r == self.spec_linear_load(),
    {
        let v = self.regs[0];
        proof { lemma_u8(v); }
        v & 0x7f
    }

    fn length_load(&self) -> (r: u8)
        ensures
            r == self.spec_length_load(),
    {
        if !self.enabled {
            0
        } else {
            let v = self.regs[3];
            proof { lemma_u8(v); }
            length_load_value(v >> 3 & 0x1f)
        }
    }

    fn halt(&self) -> (r: bool)
        ensures
            r == self.spec_halt(),
    {
        let v = self.regs[0];
        proof { lemma_u8(v); }
        v & 0x80 != 0
    }

    fn sequence(&self) -> (r: u8)
        ensures
            r == triangle_level(self.sequencer),
    {
        let s = self.sequencer % 32;
        if s < 16 {
            (15 - s) as u8
        } else {
            (s - 16) as u8
        }
    }
}

impl Channel for Triangle {
    closed spec fn can_tick(&self) -> bool {
        self.current_tick < u64::MAX
    }

    fn register(&self, cpu: &mut AddressBus)
        ensures
            final(cpu).writes() == old(cpu).writes().push(
                (MappingFn::AndEqualsAndMask(AndEqualsAndMask(0xfffc, 0x4008, 0x3)), DeviceKind::Triangle),
            ),
            final(cpu).reads() == old(cpu).reads(),
    {
        cpu.register_write(DeviceKind::Triangle, AndEqualsAndMask(0xfffc, 0x4008, 0x3).into());
    }

    /// Register 3 loads the length counter and requests a linear reload.
    fn write(&mut self, addr: u16, value: u8)
        ensures
            final(self).written_from(*old(self), addr, value),
            final(self).spec_regs() == old(self).spec_regs().update(addr as int, value),
            final(self).spec_enabled() == old(self).spec_enabled(),
            addr == 3 ==> final(self).spec_length_counter() == final(self).spec_length_load(),
            addr != 3 ==> final(self).spec_length_counter() == old(self).spec_length_counter(),
            final(self).spec_linear_counter() == old(self).spec_linear_counter(),
            final(self).spec_sequencer() == old(self).spec_sequencer(),
            old(self).can_tick() ==> final(self).can_tick(),
            final(self).ticks() == old(self).ticks(),
    {
        self.regs[addr as usize] = value;
        if addr == 3 {
            self.length_counter = self.length_load();
            self.linear_reload = true;
        }
    }

    fn tick(&mut self, state: ApuSnapshot) -> (r: u8)
        ensures
            (*final(self), r) == old(self).tick_post(state),
            final(self).ticks() == old(self).ticks() + 1,
    {
        self.current_tick += 1;
        let c = self.current_tick;
        proof { lemma_u64(c); }

        if self.timer_counter == 0 {
            self.timer_counter = self.timer_load();
            if self.length_counter != 0 && self.linear_counter != 0 {
                self.sequencer = self.sequencer.wrapping_add(1);
            }
        } else {
            self.timer_counter -= 1;
        }

        if (state.is_quarter_frame || self.forced_clock) && c & 1 == 0 {
            if self.linear_reload {
                self.linear_counter = self.linear_load();
            } else if self.linear_counter != 0 {
                self.linear_counter -= 1;
            }
            if !self.halt() {
                self.linear_reload = false;
            }
        }

        if (state.is_half_frame || self.forced_clock) && self.length_counter != 0 && !self.halt() {
            self.length_counter -= 1;
        }

        self.forced_clock = false;

        self.sequence()
    }

    fn enable(&mut self)
        ensures
            *final(self) == old(self).switched(true),
            final(self).spec_enabled(),
            final(self).spec_length_counter() == old(self).spec_length_counter(),
            final(self).spec_regs() == old(self).spec_regs(),
            old(self).can_tick() ==> final(self).can_tick(),
            final(self).ticks() == old(self).ticks(),
    {
        self.enabled = true;
    }

    fn disable(&mut self)
        ensures
            *final(self) == old(self).switched(false),
            !final(self).spec_enabled(),
            final(self).spec_length_counter() == 0,
            final(self).spec_regs() == old(self).spec_regs(),
            old(self).can_tick() ==> final(self).can_tick(),
            final(self).ticks() == old(self).ticks(),
    {
        self.enabled = false;
        self.length_counter = 0;
    }

    fn get_state(&self) -> (r: bool)
        ensures
            r == (self.spec_length_counter() > 0),
    {
        self.length_counter > 0
    }
}

/// A silent triangle holds its level: with the length counter at zero a
/// cycle leaves the sequencer step (and so the level) and the counter
/// where they were.
pub proof fn lemma_silent_triangle_holds(c: Triangle, state: ApuSnapshot)
    requires
        c.spec_length_counter() == 0,
    ensures
        c.tick_post(state).0.spec_sequencer() == c.spec_sequencer(),
        c.tick_post(state).0.spec_length_counter() == 0,
        c.tick_post(state).1 == triangle_level(c.spec_sequencer()),
{
}

/// A silent triangle holds its level under any run of calls in which
/// register 3 is written only while the channel is off: the length counter
/// stays 0 (so `get_state` reports it idle), the sequencer never moves, and
/// every cycle outputs the level of the step it started on (15 from
/// power-on).
pub proof fn lemma_silent_triangle_calls(ts: Seq<Triangle>, calls: Seq<ChannelCall>)
    requires
        ts.len() == calls.len() + 1,
        ts[0].spec_length_counter() == 0,
        forall|i: int| 0 <= i < calls.len() ==> #[trigger] ts[i].called(calls[i], ts[i + 1]),
        forall|i: int|
            0 <= i < calls.len() ==> (#[trigger] calls[i] matches ChannelCall::Write(a, _) && a == 3
                ==> !ts[i].spec_enabled()),
    ensures
        forall|i: int|
            0 <= i < ts.len() ==> #[trigger] ts[i].spec_length_counter() == 0 && ts[i].spec_sequencer()
                == ts[0].spec_sequencer(),
        forall|i: int|
            0 <= i < calls.len() ==> (#[trigger] calls[i] matches ChannelCall::Tick(state) ==> ts[i].tick_post(
                state,
            ).1 == triangle_level(ts[0].spec_sequencer())),
        triangle_level(0) == 15,
{
    assert forall|i: int| 0 <= i < ts.len() implies #[trigger] ts[i].spec_length_counter() == 0
        && ts[i].spec_sequencer() == ts[0].spec_sequencer() by {
        lemma_silent_triangle_prefix(ts, calls, i);
    }
    assert forall|i: int| 0 <= i < calls.len() implies (#[trigger] calls[i] matches ChannelCall::Tick(state)
        ==> ts[i].tick_post(state).1 == triangle_level(ts[0].spec_sequencer())) by {
        lemma_silent_triangle_prefix(ts, calls, i);
        if let ChannelCall::Tick(state) = calls[i] {
            lemma_silent_triangle_holds(ts[i], state);
        }
    }
}

proof fn lemma_silent_triangle_prefix(ts: Seq<Triangle>, calls: Seq<ChannelCall>, k: int)
    requires
        ts.len() == calls.len() + 1,
        ts[0].spec_length_counter() == 0,
        forall|i: int| 0 <= i < calls.len() ==> #[trigger] ts[i].called(calls[i], ts[i + 1]),
        forall|i: int|
            0 <= i < calls.len() ==> (#[trigger] calls[i] matches ChannelCall::Write(a, _) && a == 3
                ==> !ts[i].spec_enabled()),
        0 <= k < ts.len(),
    ensures
        ts[k].spec_length_counter() == 0,
        ts[k].spec_sequencer() == ts[0].spec_sequencer(),
    decreases k,
{
    if k > 0 {
        lemma_silent_triangle_prefix(ts, calls, k - 1);
        let j = k - 1;
        let t = ts[j];
        let c = calls[j];
        assert(ts[j].called(calls[j], ts[j + 1]));
        assert(j + 1 == k);
        if let ChannelCall::Tick(state) = c {
            lemma_silent_triangle_holds(t, state);
        }
    }
}

/// A run of cycles over the given frame-sequencer snapshots: the triangle
/// at the end and the level output by each cycle.
pub open spec fn triangle_run(t: Triangle, states: Seq<ApuSnapshot>) -> (Triangle, Seq<u8>)
    decreases states.len(),
{
    if states.len() == 0 {
        (t, Seq::empty())
    } else {
        let (q, o) = t.tick_post(states[0]);
        let (r, os) = triangle_run(q, states.drop_first());
        (r, seq![o] + os)
    }
}

/// A silent triangle holds its level over any run of cycles: every cycle
/// outputs the level of the step it stands on, which does not move, and
/// the length counter stays 0. From power-on (step 0) that level is 15.
pub proof fn lemma_silent_triangle_run(t: Triangle, states: Seq<ApuSnapshot>)
    requires
        t.spec_length_counter() == 0,
    ensures
        triangle_run(t, states).0.spec_length_counter() == 0,
        triangle_run(t, states).0.spec_sequencer() == t.spec_sequencer(),
        triangle_run(t, states).1.len() == states.len(),
        forall|i: int|
            0 <= i < states.len() ==> #[trigger] triangle_run(t, states).1[i] == triangle_level(t.spec_sequencer()),
        triangle_level(0) == 15,
    decreases states.len(),
{
    if states.len() > 0 {
        lemma_silent_triangle_holds(t, states[0]);
        let q = t.tick_post(states[0]).0;
        lemma_silent_triangle_run(q, states.drop_first());
        let os = triangle_run(q, states.drop_first()).1;
        assert forall|i: int| 0 <= i < states.len() implies #[trigger] triangle_run(t, states).1[i]
            == triangle_level(t.spec_sequencer()) by {
            if i > 0 {
                assert(triangle_run(t, states).1[i] == os[i - 1]);
            }
        }
    }
}

/// The triangle outputs a 4-bit level.
pub proof fn lemma_triangle_output(c: Triangle, state: ApuSnapshot)
    ensures
        c.tick_post(state).1 < 16,
{
}

/// The triangle's 32-step ramp stays within 4 bits and is symmetric: the
/// step mirrored around the middle of the period has the same level.
pub proof fn lemma_triangle_level_symmetric(s: u32)
    requires
        s < 32,
    ensures
        triangle_level(s) <= 15,
        triangle_level(s) == triangle_level((31 - s) as u32),
{
}

} // verus!

verus! {

/// The channel can run another cycle while its cycle count is below the
/// top of its 64-bit range.
pub proof fn lemma_triangle_can_tick(c: &Triangle)
    ensures
        c.can_tick() == (c.ticks() < u64::MAX),
{
}


/// Turning the channel on or off ($4015) sets its enable flag, clears the
/// length counter when off, and leaves the registers, the cycle count and
/// the tick result as they were otherwise.
pub proof fn lemma_switched(c: Triangle, on: bool)
    ensures
        c.switched(on).spec_enabled() == on,
        c.switched(on).spec_length_counter() == if on { c.spec_length_counter() } else { 0 },
        c.switched(on).spec_regs() == c.spec_regs(),
        c.switched(on).ticks() == c.ticks(),
        c.switched(on).spec_sequencer() == c.spec_sequencer(),
{
}

/// What one cycle does, read off the channel it leaves: it outputs the
/// level of the sequencer step it stands on; the sequencer moves one step
/// when the timer expires while both counters run; the length counter
/// counts down on a half-frame (or forced) clock unless halted; the forced
/// clock is consumed; the registers and enable bit stay, and the cycle
/// count advances.
pub proof fn lemma_triangle_tick(c: Triangle, state: ApuSnapshot)
    ensures
        ({
            let (n, out) = c.tick_post(state);
            &&& out == triangle_level(n.spec_sequencer())
            &&& n.spec_sequencer() == if c.spec_timer_counter() == 0 && c.spec_length_counter() != 0
                && c.spec_linear_counter() != 0 {
                ((c.spec_sequencer() + 1) % 0x1_0000_0000) as u32
            } else {
                c.spec_sequencer()
            }
            &&& n.spec_length_counter() == if (state.is_half_frame || c.spec_forced_clock())
                && c.spec_length_counter() != 0 && !c.spec_halt() {
                (c.spec_length_counter() - 1) as u8
            } else {
                c.spec_length_counter()
            }
            &&& !n.spec_forced_clock()
            &&& n.spec_regs() == c.spec_regs()
            &&& n.spec_enabled() == c.spec_enabled()
            &&& c.ticks() < u64::MAX ==> n.ticks() == c.ticks() + 1
        }),
{
}

} // verus!
