//! The PPU's per-dot schedule: for every (scanline, dot) of a frame, which
//! background fetch, sprite-evaluation step and vblank change happens.
use vstd::prelude::*;

use crate::region::Region;

verus! {

#[derive(Debug, Copy, Clone, PartialEq, Eq, Structural)]
pub enum BackgroundStep {
    VertReset,
    HorzReset,
    VertIncrement,
    HorzIncrement,
    ShiftedHorzIncrement,
    Nametable,
    Attribute,
    LowPattern,
    HighPattern,
}

#[derive(Debug, Copy, Clone, PartialEq, Eq, Structural)]
pub enum SpriteStep {
    Clear,
    Eval,
    Read,
    Reset,
    Hblank,
    Fetch(u8),
    BackgroundWait,
}

#[derive(Debug, Copy, Clone, PartialEq, Eq, Structural)]
pub enum StateChange {
    SkippedTick,
    SetVblank,
    ClearVblank,
}

#[derive(Debug, Copy, Clone, PartialEq, Eq, Structural)]
pub struct PpuStep {
    pub background: Option<BackgroundStep>,
    pub sprite: Option<SpriteStep>,
    pub state: Option<StateChange>,
    pub scanline: u32,
    pub dot: u32,
}

pub open spec fn prerender_of(region: Region) -> u32 {
    match region {
        Region::Ntsc => 261,
        Region::Pal => 311,
    }
}

pub open spec fn vblank_of(region: Region) -> u32 {
    match region {
        Region::Ntsc => 240,
        Region::Pal => 239,
    }
}

/// Vblank is cleared at dot 1 of the pre-render line and set at dot 1 of
/// the line after the vblank line; NTSC skips the last pre-render dot on
/// odd frames.
pub open spec fn state_at(region: Region, scanline: u32, dot: u32) -> Option<StateChange> {
    let prerender = prerender_of(region);
    if scanline == prerender && dot == 1 {
        Some(StateChange::ClearVblank)
    } else if scanline == prerender && dot == 340 && region == Region::Ntsc {
        Some(StateChange::SkippedTick)
    } else if dot == 1 && scanline == vblank_of(region) + 1 {
        Some(StateChange::SetVblank)
    } else {
        None
    }
}

/// Tile fetches every 8 dots on visible and pre-render lines, the two
/// prefetched tiles at dots 321..336, and the scroll copies.
pub open spec fn background_at(region: Region, scanline: u32, dot: u32) -> Option<BackgroundStep> {
    let prerender = prerender_of(region);
    let vblank = vblank_of(region);
    if scanline == prerender && 280 <= dot < 304 {
        Some(BackgroundStep::VertReset)
    } else if vblank <= scanline < prerender {
        None
    } else if dot % 8 == 1 && dot < 256 {
        Some(BackgroundStep::Nametable)
    } else if dot % 8 == 3 && dot < 256 {
        Some(BackgroundStep::Attribute)
    } else if dot % 8 == 5 && dot < 256 {
        Some(BackgroundStep::LowPattern)
    } else if dot % 8 == 7 && dot < 256 {
        Some(BackgroundStep::HighPattern)
    } else if dot % 8 == 0 && dot != 0 && dot < 256 {
        Some(BackgroundStep::HorzIncrement)
    } else if dot == 256 {
        Some(BackgroundStep::VertIncrement)
    } else if dot == 257 {
        Some(BackgroundStep::HorzReset)
    } else if dot == 321 || dot == 329 || dot == 337 || dot == 339 {
        Some(BackgroundStep::Nametable)
    } else if dot == 323 || dot == 331 {
        Some(BackgroundStep::Attribute)
    } else if dot == 325 || dot == 333 {
        Some(BackgroundStep::LowPattern)
    } else if dot == 327 || dot == 335 {
        Some(BackgroundStep::HighPattern)
    } else if dot == 328 {
        Some(BackgroundStep::HorzIncrement)
    } else if dot == 336 {
        Some(BackgroundStep::ShiftedHorzIncrement)
    } else {
        None
    }
}

/// Sprite evaluation on rendering lines: secondary OAM clear on odd dots
/// 1..64, evaluation 65..255, fetches 257..319.
pub open spec fn sprite_at(region: Region, scanline: u32, dot: u32) -> Option<SpriteStep> {
    if scanline == prerender_of(region) || scanline < vblank_of(region) {
        if dot == 0 {
            Some(SpriteStep::Reset)
        } else if 1 <= dot < 65 && dot % 2 == 1 {
            Some(SpriteStep::Clear)
        } else if 65 <= dot < 256 {
            if dot % 2 == 0 { Some(SpriteStep::Eval) } else { Some(SpriteStep::Read) }
        } else if dot == 256 {
            Some(SpriteStep::Hblank)
        } else if 257 <= dot < 320 {
            Some(SpriteStep::Fetch((dot % 8) as u8))
        } else if 321 <= dot < 340 {
            Some(SpriteStep::BackgroundWait)
        } else {
            None
        }
    } else {
        None
    }
}

/// The step at position `i` of a frame's schedule.
pub open spec fn step_at(region: Region, i: int) -> PpuStep {
    let scanline = (i / 341) as u32;
    let dot = (i % 341) as u32;
    PpuStep {
        background: background_at(region, scanline, dot),
        sprite: sprite_at(region, scanline, dot),
        state: state_at(region, scanline, dot),
        scanline,
        dot,
    }
}

pub struct PpuSteps {
    index: usize,
    steps: Vec<PpuStep>,
}

impl PpuSteps {
    pub closed spec fn spec_steps(&self) -> Seq<PpuStep> {
        self.steps@
    }

    pub closed spec fn spec_index(&self) -> usize {
        self.index
    }

    fn new(steps: Vec<PpuStep>) -> (r: PpuSteps)
        ensures
            r.spec_steps() == steps@,
            r.spec_index() == 0,
    {
        PpuSteps { index: 0, steps }
    }

    /// The next step of the schedule, wrapping to the start of the frame.
    pub fn step(&mut self) -> (r: PpuStep)
        requires
            old(self).spec_steps().len() > 0,
            old(self).spec_index() <= old(self).spec_steps().len(),
        ensures
            final(self).spec_steps() == old(self).spec_steps(),
            r == old(self).spec_steps()[read_slot(old(self).spec_index() as int, old(self).spec_steps().len() as int)],
            final(self).spec_index() == next_cursor(old(self).spec_index() as int, old(self).spec_steps().len() as int),
            final(self).spec_index() <= final(self).spec_steps().len(),
    {
        if self.index >= self.steps.len() {
            self.index = 0;
        }
        let next = self.steps[self.index];
        self.index += 1;

        next
    }
}

fn step_for(region: Region, prerender: u32, vblank: u32, skip: bool, scanline: u32, dot: u32) -> (r: PpuStep)
    requires
        prerender == prerender_of(region),
        vblank == vblank_of(region),
        skip == (region == Region::Ntsc),
    ensures
        r == (PpuStep {
            background: background_at(region, scanline, dot),
            sprite: sprite_at(region, scanline, dot),
            state: state_at(region, scanline, dot),
            scanline,
            dot,
        }),
{
    let state = if scanline == prerender && dot == 1 {
        Some(StateChange::ClearVblank)
    } else if scanline == prerender && dot == 340 && skip {
        Some(StateChange::SkippedTick)
    } else if dot == 1 && scanline == vblank + 1 {
        Some(StateChange::SetVblank)
    } else {
        None
    };

    let background = if scanline == prerender && dot >= 280 && dot < 304 {
        Some(BackgroundStep::VertReset)
    } else if scanline >= vblank && scanline < prerender {
        None
    } else if dot % 8 == 1 && dot < 256 {
        Some(BackgroundStep::Nametable)
    } else if dot % 8 == 3 && dot < 256 {
        Some(BackgroundStep::Attribute)
    } else if dot % 8 == 5 && dot < 256 {
        Some(BackgroundStep::LowPattern)
    } else if dot % 8 == 7 && dot < 256 {
        Some(BackgroundStep::HighPattern)
    } else if dot % 8 == 0 && dot != 0 && dot < 256 {
        Some(BackgroundStep::HorzIncrement)
    } else if dot == 256 {
        Some(BackgroundStep::VertIncrement)
    } else if dot == 257 {
        Some(BackgroundStep::HorzReset)
    } else if dot == 321 || dot == 329 || dot == 337 || dot == 339 {
        Some(BackgroundStep::Nametable)
    } else if dot == 323 || dot == 331 {
        Some(BackgroundStep::Attribute)
    } else if dot == 325 || dot == 333 {
        Some(BackgroundStep::LowPattern)
    } else if dot == 327 || dot == 335 {
        Some(BackgroundStep::HighPattern)
    } else if dot == 328 {
        Some(BackgroundStep::HorzIncrement)
    } else if dot == 336 {
        Some(BackgroundStep::ShiftedHorzIncrement)
    } else {
        None
    };

    let sprite = if scanline == prerender || scanline < vblank {
        if dot == 0 {
            Some(SpriteStep::Reset)
        } else if dot >= 1 && dot < 65 && dot % 2 == 1 {
            Some(SpriteStep::Clear)
        } else if dot >= 65 && dot < 256 {
            if dot % 2 == 0 {
                Some(SpriteStep::Eval)
            } else {
                Some(SpriteStep::Read)
            }
        } else if dot == 256 {
            Some(SpriteStep::Hblank)
        } else if dot >= 257 && dot < 320 {
            Some(SpriteStep::Fetch((dot % 8) as u8))
        } else if dot >= 321 && dot < 340 {
            Some(SpriteStep::BackgroundWait)
        } else {
            None
        }
    } else {
        None
    };

    PpuStep { background, sprite, state, scanline, dot }
}

/// Builds the schedule of a whole frame: 341 dots for each scanline from 0
/// through the pre-render line.
pub fn generate_steps(region: Region) -> (r: PpuSteps)
    ensures
        r.spec_index() == 0,
        r.spec_steps().len() == (prerender_of(region) + 1) * 341,
        forall|i: int| 0 <= i < r.spec_steps().len() ==> #[trigger] r.spec_steps()[i] == step_at(region, i),
{
    let prerender = region.prerender_line();
    let vblank = region.vblank_line();
    let skip = region.uneven_frames();
    let mut dot: u32 = 0;
    let mut scanline: u32 = 0;

    let mut steps: Vec<PpuStep> = Vec::new();

    loop
        invariant_except_break
            prerender == prerender_of(region),
            vblank == vblank_of(region),
            skip == (region == Region::Ntsc),
            scanline <= prerender,
            dot < 341,
            steps@.len() == scanline * 341 + dot,
            forall|i: int| 0 <= i < steps@.len() ==> #[trigger] steps@[i] == step_at(region, i),
        ensures
            steps@.len() == (prerender_of(region) + 1) * 341,
            forall|i: int| 0 <= i < steps@.len() ==> #[trigger] steps@[i] == step_at(region, i),
        decreases (prerender - scanline) * 341 + (341 - dot),
    {
        let step = step_for(region, prerender, vblank, skip, scanline, dot);
        proof {
            let i = scanline * 341 + dot;
            assert(i / 341 == scanline && i % 341 == dot) by (nonlinear_arith)
                requires
                    i == scanline * 341 + dot,
                    dot < 341,
            ;
        }
        steps.push(step);

        dot += 1;
        if dot == 341 {
            dot = 0;
            if scanline == prerender {
                break;
            } else {
                scanline += 1;
            }
        }
    }

    PpuSteps::new(steps)
}

} // verus!

verus! {

/// The slot of the schedule the `k`-th next step is read from, when the
/// cursor stands at `index` of a schedule of `len` steps.
pub open spec fn schedule_slot(index: int, len: int, k: nat) -> int {
    ((if index >= len { 0 } else { index }) + k) % len
}

/// The slot a `step` reads when the cursor stands at `index`.
pub open spec fn read_slot(index: int, len: int) -> int {
    if index >= len { 0 } else { index }
}

/// The cursor after a `step` taken at `index`.
pub open spec fn next_cursor(index: int, len: int) -> int {
    read_slot(index, len) + 1
}

/// The cursor after `k` steps taken from `index`.
pub open spec fn cursor_after(index: int, len: int, k: nat) -> int
    decreases k,
{
    if k == 0 {
        index
    } else {
        cursor_after(next_cursor(index, len), len, (k - 1) as nat)
    }
}

/// The schedule repeats forever: one `step` reads slot `schedule_slot(index,
/// len, 0)` and moves the cursor so that every later step reads the slot
/// after it, wrapping at the end of the frame; a fresh schedule's `k`-th
/// step is slot `k % len`.
pub proof fn lemma_schedule_repeats(index: int, len: int, k: nat)
    requires
        0 < len,
        0 <= index <= len,
    ensures
        schedule_slot(index, len, 0) == (if index >= len { 0 } else { index }),
        schedule_slot((if index >= len { 0 } else { index }) + 1, len, k) == schedule_slot(index, len, k + 1),
        schedule_slot(0, len, k) == (k as int) % len,
{
    let a = if index >= len { 0 } else { index };
    assert(a % len == a) by {
        vstd::arithmetic::div_mod::lemma_small_mod(a as nat, len as nat);
    }
    if a + 1 >= len {
        assert(a + 1 == len);
        vstd::arithmetic::div_mod::lemma_mod_add_multiples_vanish(k as int, len);
    }
}

/// The `k`-th call of `step` (counting from 0) on a schedule whose cursor
/// stands at `index` reads slot `schedule_slot(index, len, k)`; on a fresh
/// schedule that is slot `k % len`, so the table repeats forever and the
/// cursor never leaves its range.
pub proof fn lemma_kth_step(index: int, len: int, k: nat)
    requires
        0 < len,
        0 <= index <= len,
    ensures
        0 <= cursor_after(index, len, k) <= len,
        read_slot(cursor_after(index, len, k), len) == schedule_slot(index, len, k),
        index == 0 ==> read_slot(cursor_after(index, len, k), len) == (k as int) % len,
    decreases k,
{
    lemma_schedule_repeats(index, len, k);
    if k > 0 {
        let next = next_cursor(index, len);
        lemma_kth_step(next, len, (k - 1) as nat);
        lemma_schedule_repeats(index, len, (k - 1) as nat);
    }
}

/// Consecutive slots of the schedule are consecutive dots: the next dot
/// of the line, or dot 0 of the next line after dot 340; the slot after
/// the last (the pre-render line's dot 340) is slot 0, dot 0 of line 0.
pub proof fn lemma_schedule_advances(region: Region, i: int)
    requires
        0 <= i < (prerender_of(region) + 1) * 341,
    ensures
        step_at(region, i).dot < 340 ==> step_at(region, i + 1).scanline == step_at(region, i).scanline
            && step_at(region, i + 1).dot == step_at(region, i).dot + 1,
        step_at(region, i).dot == 340 ==> step_at(region, i + 1).scanline == step_at(region, i).scanline + 1
            && step_at(region, i + 1).dot == 0,
        i + 1 == (prerender_of(region) + 1) * 341 ==> step_at(region, i).scanline == prerender_of(region)
            && step_at(region, i).dot == 340 && step_at(region, 0).scanline == 0 && step_at(region, 0).dot == 0,
{
    assert(0 <= i % 341 < 341);
    if i % 341 < 340 {
        assert((i + 1) / 341 == i / 341 && (i + 1) % 341 == i % 341 + 1) by (nonlinear_arith)
            requires
                i >= 0,
                i % 341 < 340,
        ;
    } else {
        assert((i + 1) / 341 == i / 341 + 1 && (i + 1) % 341 == 0) by (nonlinear_arith)
            requires
                i >= 0,
                i % 341 == 340,
        ;
    }
}

/// What the PPU relies on in a step of the schedule: dots stay below 341,
/// line-OAM clears stay in its first 64 dots, vertical blank starts at dot
/// 1 of the line after the last visible one and ends at dot 1 of the
/// pre-render line (a clear step), and the frame starts with a sprite reset.
pub proof fn lemma_step_facts(region: Region, i: int)
    requires
        0 <= i < (prerender_of(region) + 1) * 341,
    ensures
        step_at(region, i).dot <= 340,
        step_at(region, i).sprite matches Some(SpriteStep::Clear) ==> step_at(region, i).dot < 64,
        step_at(region, i).state == Some(StateChange::SetVblank) ==> step_at(region, i).scanline == vblank_of(region)
            + 1 && step_at(region, i).dot == 1,
        step_at(region, i).state == Some(StateChange::ClearVblank) ==> step_at(region, i).scanline == prerender_of(
            region,
        ) && step_at(region, i).dot == 1 && step_at(region, i).sprite == Some(SpriteStep::Clear),
        step_at(region, 0).sprite == Some(SpriteStep::Reset),
        step_at(region, i).background == Some(BackgroundStep::ShiftedHorzIncrement) ==> step_at(region, i).dot
            == 336,
        step_at(region, i).sprite matches Some(SpriteStep::Fetch(_)) ==> 257 <= step_at(region, i).dot < 320,
        step_at(region, i).state == Some(StateChange::SkippedTick) ==> step_at(region, i).dot == 340,
{
}

} // verus!
