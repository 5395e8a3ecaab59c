//! The picture processing unit: its CPU-visible registers, the
//! background and sprite pipelines driven by the per-dot schedule, and the
//! frame it renders into palette indices.
use vstd::prelude::*;

use crate::bus::{AddressBus, BusKind, DeviceKind, MappingFn, RangeAndMask};
use crate::mapper::{lemma_ppu_bus, Nametable, RcMapper};
use crate::memory::FixedMemoryBlock;
use crate::ppu_step::{generate_steps, lemma_step_facts, prerender_of, step_at, vblank_of, BackgroundStep, PpuStep, PpuSteps, SpriteStep, StateChange};
use crate::region::{EmphMode, Region};
use crate::run_until::{counted_times, RunEvent, RunUntil};

verus! {

/// Why a frame-driving run stopped.
#[derive(Debug, Copy, Clone, PartialEq, Eq, Structural)]
pub enum FrameEnd {
    SetVblank,
    ClearVblank,
    Dot(u32, u32),
    Samples(usize),
}

/// The kind of bus cycle the PPU performs when it fetches.
#[derive(Debug, Copy, Clone, PartialEq, Eq, Structural)]
pub enum PpuFetchKind {
    Idle,
    Read,
    Write,
}

/// A debugger snapshot of the PPU.
#[derive(Debug, Copy, Clone)]
pub struct PpuDebugState {
    pub tick: u64,
    pub scanline: u32,
    pub dot: u32,
    pub vblank: bool,
    pub nmi: bool,
    pub sprite_zero_hit: bool,
    pub registers: [u8; 8],
}

} // verus!

verus! {

/// A register whose writes take effect `DELAY - 1` dots later.
#[derive(Debug, Clone, Copy)]
pub struct DelayReg<const DELAY: usize, T: Copy> {
    values: [T; DELAY],
}

impl<const DELAY: usize, T: Copy> DelayReg<DELAY, T> {
    /// The pipeline, oldest (current) value first.
    pub closed spec fn stages(&self) -> Seq<T> {
        self.values@
    }

    fn new(value: T) -> (r: Self)
        requires
            DELAY > 0,
        ensures
            r.stages() == Seq::new(DELAY as nat, |i: int| value),
    {
        let r = Self { values: [value; DELAY] };
        assert(r.values@ =~= Seq::new(DELAY as nat, |i: int| value));
        r
    }

    /// Every stage moves one step towards the front.
    fn tick(&mut self)
        requires
            DELAY > 0,
        ensures
            final(self).stages() == old(self).stages().skip(1).push(old(self).stages().last()),
    {
        let mut i: usize = 1;
        while i < DELAY
            invariant
                1 <= i <= DELAY,
                DELAY > 0,
                self.values@.len() == DELAY,
                forall|j: int| 0 <= j < i - 1 ==> #[trigger] self.values@[j] == old(self).values@[j + 1],
                forall|j: int| i - 1 <= j < DELAY ==> #[trigger] self.values@[j] == old(self).values@[j],
            decreases DELAY - i,
        {
            self.values[i - 1] = self.values[i];
            i += 1;
        }
        assert(self.values@ =~= old(self).values@.skip(1).push(old(self).values@.last()));
    }

    fn value(&self) -> (r: T)
        requires
            DELAY > 0,
        ensures
            r == self.stages()[0],
    {
        self.values[0]
    }

    /// Loads the last stage.
    fn update(&mut self, value: T)
        requires
            DELAY > 0,
        ensures
            final(self).stages() == old(self).stages().update(DELAY - 1, value),
    {
        self.values[DELAY - 1] = value;
    }
}

/// Dots after which an open-bus bit that was not refreshed decays to 0.
pub const DECAY_TICKS: u32 = 3573680;

/// The PPU's data bus latch: each bit keeps the last value driven on it
/// until it decays.
#[derive(Debug, Clone, Copy)]
pub struct OpenBus {
    value: u8,
    decay: [u32; 8],
}

impl OpenBus {
    pub closed spec fn spec_value(&self) -> u8 {
        self.value
    }

    pub closed spec fn spec_decay(&self) -> Seq<u32> {
        self.decay@
    }

    fn new() -> (r: Self)
        ensures
            r.spec_value() == 0,
            r.spec_decay() == Seq::new(8, |i: int| 0u32),
    {
        let r = Self { value: 0, decay: [0; 8] };
        assert(r.decay@ =~= Seq::new(8, |i: int| 0u32));
        r
    }

    /// Every bit ages by a dot; bits past the decay time read 0.
    fn tick(&mut self)
        ensures
            forall|i: int| 0 <= i < 8 ==> #[trigger] final(self).spec_decay()[i] == if old(self).spec_decay()[i] >= DECAY_TICKS {
                old(self).spec_decay()[i]
            } else {
                (old(self).spec_decay()[i] + 1) as u32
            },
            forall|i: u8| i < 8 ==> #[trigger] bit_of(final(self).spec_value(), i) == (bit_of(old(self).spec_value(), i)
                && old(self).spec_decay()[i as int] < DECAY_TICKS),
    {
        let mut idx: usize = 0;
        while idx < 8
            invariant
                idx <= 8,
                self.decay@.len() == 8,
                forall|i: int| 0 <= i < idx ==> #[trigger] self.decay@[i] == if old(self).decay@[i] >= DECAY_TICKS {
                    old(self).decay@[i]
                } else {
                    (old(self).decay@[i] + 1) as u32
                },
                forall|i: int| idx <= i < 8 ==> #[trigger] self.decay@[i] == old(self).decay@[i],
                forall|i: u8| i < 8 ==> #[trigger] bit_of(self.value, i) == (bit_of(old(self).value, i) && (i >= idx
                    || old(self).decay@[i as int] < DECAY_TICKS)),
            decreases 8 - idx,
        {
            if self.decay[idx] >= DECAY_TICKS {
                let v = self.value;
                let k = idx as u8;
                self.value = v & !(1u8 << k);
                proof {
                    lemma_clear_bit(v, k);
                }
            } else {
                self.decay[idx] = self.decay[idx] + 1;
            }
            idx += 1;
        }
    }

    /// `self` is `old` with the bits of `mask` driven by `value` and
    /// refreshed.
    pub open spec fn updated_from(self, old: OpenBus, value: u8, mask: u8) -> bool {
        &&& self.spec_value() == (old.spec_value() & !mask) | (value & mask)
        &&& self.spec_decay().len() == 8
        &&& forall|i: u8| i < 8 ==> #[trigger] self.spec_decay()[i as int] == if bit_of(mask, i) {
            0u32
        } else {
            old.spec_decay()[i as int]
        }
    }

    /// Drives the bits of `mask` with `value`'s and refreshes them.
    fn update(&mut self, value: u8, mask: u8)
        ensures
            final(self).updated_from(*old(self), value, mask),
    {
        let mut idx: usize = 0;
        while idx < 8
            invariant
                idx <= 8,
                self.decay@.len() == 8,
                self.value == old(self).value,
                forall|i: u8| i < 8 ==> #[trigger] self.decay@[i as int] == if bit_of(mask, i) && i < idx {
                    0u32
                } else {
                    old(self).decay@[i as int]
                },
            decreases 8 - idx,
        {
            let k = idx as u8;
            if mask & (1u8 << k) != 0 {
                self.decay[idx] = 0;
            }
            proof {
                lemma_bit_test(mask, k);
            }
            idx += 1;
        }
        self.value = (self.value & !mask) | (value & mask);
    }

    /// The bits outside `mask`.
    fn value(&self, mask: u8) -> (r: u8)
        ensures
            r == self.spec_value() & !mask,
    {
        self.value & !mask
    }
}

/// Bit `i` of a byte.
pub open spec fn bit_of(v: u8, i: u8) -> bool {
    (v >> i) & 1 == 1
}

proof fn lemma_clear_bit(v: u8, k: u8)
    requires
        k < 8,
    ensures
        forall|i: u8| i < 8 ==> #[trigger] bit_of(v & !(1u8 << k), i) == (bit_of(v, i) && i != k),
{
    assert forall|i: u8| i < 8 implies #[trigger] bit_of(v & !(1u8 << k), i) == (bit_of(v, i) && i != k) by {
        assert(k < 8 && i < 8 ==> (((v & !(1u8 << k)) >> i) & 1 == 1) == (((v >> i) & 1 == 1) && i != k)) by (bit_vector);
    }
}

proof fn lemma_bit_test(m: u8, k: u8)
    requires
        k < 8,
    ensures
        (m & (1u8 << k) != 0) == bit_of(m, k),
{
    assert(k < 8 ==> ((m & (1u8 << k) != 0) == ((m >> k) & 1 == 1))) by (bit_vector);
}

/// A sprite selected for the line: its countdown to its first pixel, its
/// attributes and its two pattern shift registers.
#[derive(Debug, Copy, Clone)]
pub struct SpriteData {
    active: u8,
    x: u8,
    attributes: u8,
    pattern_high: u8,
    pattern_low: u8,
}

impl SpriteData {
    fn new() -> (r: Self)
        ensures
            r.active == 0 && r.x == 0 && r.attributes == 0 && r.pattern_high == 0 && r.pattern_low == 0,
    {
        SpriteData { active: 0, x: 0, attributes: 0, pattern_high: 0, pattern_low: 0 }
    }
}

} // verus!

verus! {

/// The palette RAM slot a PPU address in $3F00-$3FFF selects: entry 0 of
/// each sprite palette mirrors the background's.
pub open spec fn palette_index(addr: u16) -> int {
    if addr % 4 != 0 {
        (addr % 32) as int
    } else {
        (addr % 16) as int
    }
}

/// The status byte $2002 reads: sprite overflow in bit 5, sprite 0 hit in
/// bit 6, vertical blank in bit 7.
pub open spec fn status_byte(overflow: bool, zero_hit: bool, vblank: bool) -> u8 {
    ((if overflow { 0x20int } else { 0 }) + (if zero_hit { 0x40int } else { 0 }) + (if vblank {
        0x80int
    } else {
        0
    })) as u8
}

/// The VRAM address after a coarse X step: the 5-bit tile column wraps
/// into the horizontally adjacent nametable.
pub open spec fn horz_incremented(addr: u16) -> u16 {
    if addr % 32 == 31 {
        ((addr - 31) as u16) ^ 0x0400
    } else {
        (addr + 1) as u16
    }
}

/// The VRAM address after a dot's background step while rendering: the
/// scroll copies from the latch `t`, the coarse X step, and the fine Y
/// step (with a coarse X step before it); fetch steps leave it alone.
pub open spec fn scroll_stepped(v: u16, t: u16, step: Option<BackgroundStep>) -> u16 {
    match step {
        Some(BackgroundStep::VertReset) => (v & 0x841f) | (t & 0x7be0),
        Some(BackgroundStep::HorzReset) => (v & 0xfbe0) | (t & 0x041f),
        Some(BackgroundStep::VertIncrement) => vert_incremented(horz_incremented(v)),
        Some(BackgroundStep::HorzIncrement) => horz_incremented(v),
        Some(BackgroundStep::ShiftedHorzIncrement) => horz_incremented(v),
        _ => v,
    }
}

/// A coarse X step moves one tile column to the right. Inside a row of 32
/// columns that is the next address; from column 31 the column wraps to 0
/// and the horizontal nametable bit (bit 10) flips, so the fetch moves on
/// into the horizontally adjacent nametable; all other bits stay.
pub proof fn lemma_coarse_x_step(addr: u16)
    ensures
        addr % 32 != 31 ==> horz_incremented(addr) == addr + 1,
        addr % 32 == 31 ==> horz_incremented(addr) % 32 == 0,
        addr % 32 == 31 ==> (horz_incremented(addr) & 0x0400) != (addr & 0x0400),
        addr % 32 == 31 ==> (horz_incremented(addr) & 0xfbe0) == (addr & 0xfbe0),
{
    if addr % 32 == 31 {
        let b: u16 = (addr - 31) as u16;
        let r = horz_incremented(addr);
        assert(r == b ^ 0x0400u16);
        assert(b + 31 == addr);
        assert(r % 32 == 0 && (r & 0x0400) != (addr & 0x0400) && (r & 0xfbe0) == (addr & 0xfbe0)) by (bit_vector)
            requires
                addr % 32 == 31,
                b + 31 == addr,
                r == b ^ 0x0400u16,
        ;
    }
}

/// The VRAM address after a fine Y step: the fine row in bits 12-14, then
/// the coarse row in bits 5-9, which wraps after row 29 into the vertically
/// adjacent nametable (rows 30 and 31 wrap without switching).
pub open spec fn vert_incremented(addr: u16) -> u16 {
    if addr / 0x1000 % 8 != 7 {
        (addr + 0x1000) as u16
    } else {
        let a = (addr % 0x1000 + addr / 0x8000 * 0x8000) as u16;
        let y = a / 32 % 32;
        let rest = (a - y * 32) as u16;
        if y == 29 {
            rest ^ 0x0800
        } else if y == 31 {
            rest
        } else {
            (rest + (y + 1) * 32) as u16
        }
    }
}

/// A fine Y step moves one pixel row down. Below fine row 7 the fine row
/// (bits 12-14) counts up; from fine row 7 it returns to 0 and the coarse
/// row (bits 5-9) counts up, except that row 29 wraps to 0 into the
/// vertically adjacent nametable (bit 11 flips) and row 31 wraps to 0 in
/// the same one. The column, the horizontal nametable bit and bit 15 stay.
pub proof fn lemma_fine_y_step(addr: u16)
    ensures
        addr / 0x1000 % 8 != 7 ==> vert_incremented(addr) == addr + 0x1000,
        addr / 0x1000 % 8 == 7 ==> {
            let r = vert_incremented(addr);
            let y = addr / 32 % 32;
            &&& r / 0x1000 % 8 == 0
            &&& r / 32 % 32 == if y == 29 || y == 31 { 0 } else { y + 1 }
            &&& (r / 0x800 % 2 != addr / 0x800 % 2) == (y == 29)
            &&& r % 32 == addr % 32
            &&& r / 0x400 % 2 == addr / 0x400 % 2
            &&& r / 0x8000 == addr / 0x8000
        },
{
    if addr / 0x1000 % 8 == 7 {
        let a = (addr % 0x1000 + addr / 0x8000 * 0x8000) as u16;
        let y = a / 32 % 32;
        let rest = (a - y * 32) as u16;
        lemma_fine_y_bits(addr, a, y, rest, vert_incremented(addr));
    }
}

proof fn lemma_fine_y_bits(addr: u16, a: u16, y: u16, rest: u16, r: u16)
    by (bit_vector)
    requires
        addr / 0x1000 % 8 == 7,
        a == (addr % 0x1000 + addr / 0x8000 * 0x8000) as u16,
        y == a / 32 % 32,
        rest == (a - y * 32) as u16,
        r == if y == 29 {
            rest ^ 0x0800
        } else if y == 31 {
            rest
        } else {
            (rest + (y + 1) * 32) as u16
        },
    ensures
        r / 0x1000 % 8 == 0,
        r / 32 % 32 == if addr / 32 % 32 == 29 || addr / 32 % 32 == 31 { 0 } else { addr / 32 % 32 + 1 },
        (r / 0x800 % 2 != addr / 0x800 % 2) == (addr / 32 % 32 == 29),
        r % 32 == addr % 32,
        r / 0x400 % 2 == addr / 0x400 % 2,
        r / 0x8000 == addr / 0x8000,
{
}

/// The schedule is the region's frame of steps, and its cursor lies
/// within it.
#[verifier::opaque]
pub closed spec fn steps_ok(steps: PpuSteps, region: Region) -> bool {
    &&& steps.spec_steps().len() == (prerender_of(region) + 1) * 341
    &&& steps.spec_index() <= steps.spec_steps().len()
    &&& forall|i: int| 0 <= i < steps.spec_steps().len() ==> #[trigger] steps.spec_steps()[i] == step_at(region, i)
}

pub struct Ppu {
    region: Region,
    pub mapper: RcMapper,
    nt_internal_a: FixedMemoryBlock<1>,
    nt_internal_b: FixedMemoryBlock<1>,
    screen: Vec<u16>,
    current_tick: u64,
    last_status_read: u64,
    last_data_write: u64,
    pub frame: u32,
    regs: [u8; 8],
    vblank: bool,
    sprite_zero_hit: bool,
    sprite_overflow: bool,
    open_bus: OpenBus,
    write_latch: bool,
    data_read_buffer: u8,
    pub vram_addr: u16,
    pub vram_addr_temp: u16,
    vram_fine_x: u16,
    oam_addr: u8,
    oam_data: Vec<u8>,
    line_oam_data: [u8; 32],
    palette_data: [u8; 32],
    nametable_tile: u8,
    attribute_low: u8,
    attribute_high: u8,
    pattern_low: u8,
    pattern_high: u8,
    low_bg_shift: u16,
    high_bg_shift: u16,
    low_attr_shift: u16,
    high_attr_shift: u16,
    next_sprite_byte: u8,
    sprite_read_loop: bool,
    block_oam_writes: bool,
    found_sprites: u32,
    sprite_reads: u32,
    line_oam_index: usize,
    sprite_zero_on_line: bool,
    sprite_zero_on_next_line: bool,
    sprite_any_on_line: bool,
    sprite_data: [SpriteData; 8],
    sprite_render_index: usize,
    reset_delay: u32,
    ppu_mask: DelayReg<4, u8>,
    ppu_steps: PpuSteps,
    step: PpuStep,
}

impl Ppu {
    pub closed spec fn spec_region(&self) -> Region {
        self.region
    }

    pub closed spec fn spec_mapper(&self) -> RcMapper {
        self.mapper
    }

    /// The current VRAM address (15 bits).
    pub closed spec fn spec_vram_addr(&self) -> u16 {
        self.vram_addr
    }

    /// The scroll / address latch copied into the VRAM address.
    pub closed spec fn spec_vram_addr_temp(&self) -> u16 {
        self.vram_addr_temp
    }

    pub closed spec fn spec_frame(&self) -> u32 {
        self.frame
    }

    /// The registers as last written ($2002's slot holds its last write).
    pub closed spec fn spec_regs(&self) -> Seq<u8> {
        self.regs@
    }

    /// The rendering mask in effect (writes reach it three dots late).
    pub closed spec fn spec_mask(&self) -> u8 {
        self.ppu_mask.stages()[0]
    }

    pub closed spec fn spec_vblank(&self) -> bool {
        self.vblank
    }

    pub closed spec fn spec_sprite_zero_hit(&self) -> bool {
        self.sprite_zero_hit
    }

    pub closed spec fn spec_sprite_overflow(&self) -> bool {
        self.sprite_overflow
    }

    pub closed spec fn spec_open_bus(&self) -> OpenBus {
        self.open_bus
    }

    /// Whether the next $2005 / $2006 write is the second of a pair.
    pub closed spec fn spec_write_latch(&self) -> bool {
        self.write_latch
    }

    pub closed spec fn spec_read_buffer(&self) -> u8 {
        self.data_read_buffer
    }

    pub closed spec fn spec_fine_x(&self) -> u16 {
        self.vram_fine_x
    }

    pub closed spec fn spec_oam_addr(&self) -> u8 {
        self.oam_addr
    }

    pub closed spec fn spec_oam(&self) -> Seq<u8> {
        self.oam_data@
    }

    pub closed spec fn spec_palette(&self) -> Seq<u8> {
        self.palette_data@
    }

    pub closed spec fn spec_tick(&self) -> u64 {
        self.current_tick
    }

    pub closed spec fn spec_last_status_read(&self) -> u64 {
        self.last_status_read
    }

    pub closed spec fn spec_last_data_write(&self) -> u64 {
        self.last_data_write
    }

    pub closed spec fn spec_reset_delay(&self) -> u32 {
        self.reset_delay
    }

    pub closed spec fn spec_step(&self) -> PpuStep {
        self.step
    }

    pub closed spec fn spec_screen(&self) -> Seq<u16> {
        self.screen@
    }

    pub closed spec fn spec_next_sprite_byte(&self) -> u8 {
        self.next_sprite_byte
    }

    /// Background or sprites are enabled.
    pub open spec fn spec_rendering(&self) -> bool {
        self.spec_mask() & 0x18 != 0
    }

    /// The last step lies in vertical blank.
    pub open spec fn spec_in_vblank(&self) -> bool {
        self.spec_step().scanline >= vblank_of(self.spec_region()) && self.spec_step().scanline
            < prerender_of(self.spec_region())
    }

    pub open spec fn spec_status(&self) -> u8 {
        status_byte(self.spec_sprite_overflow(), self.spec_sprite_zero_hit(), self.spec_vblank())
    }

    /// The address step after a $2007 access: 32 with bit 2 of $2000 set, else 1.
    pub open spec fn spec_vram_inc(&self) -> u16 {
        if self.spec_regs()[0] & 0x04 != 0 { 0x20 } else { 0x01 }
    }

    pub open spec fn spec_grayscale(&self) -> bool {
        self.spec_regs()[1] & 0x01 != 0
    }

    /// The colour emphasis bits of a screen entry: $2001 bits 5-7 at bits
    /// 6-8, red and green swapped on PAL.
    pub open spec fn spec_emph(&self) -> u16 {
        let m = self.spec_regs()[1];
        let (first, second) = match self.spec_region() {
            Region::Ntsc => (m & 0x20 != 0, m & 0x40 != 0),
            Region::Pal => (m & 0x40 != 0, m & 0x20 != 0),
        };
        ((if first { 0x40int } else { 0 }) + (if second { 0x80int } else { 0 }) + (if m & 0x80 != 0 {
            0x100int
        } else {
            0
        })) as u16
    }

    /// The screen entry a dot shows with rendering off: the palette entry
    /// the VRAM address points at when it is in $3Fxx, else the backdrop,
    /// with the emphasis bits above.
    pub open spec fn spec_idle_pixel(&self) -> u16 {
        let addr = self.spec_vram_addr();
        let a: u16 = if addr / 0x100 % 0x40 == 0x3f { addr } else { 0x3f00 };
        self.spec_palette_read(a) as u16 | self.spec_emph()
    }

    /// What $2007 returns from palette RAM at a $3Fxx address.
    pub open spec fn spec_palette_read(&self, addr: u16) -> u8 {
        let v = self.spec_palette()[palette_index(addr)];
        if self.spec_grayscale() { v & 0x30 } else { v }
    }

    /// The VRAM address after a $2007 access: during rendering both scroll
    /// steps, otherwise the address step, wrapping at 15 bits.
    pub open spec fn spec_vram_advanced(&self) -> u16 {
        if !self.spec_in_vblank() && self.spec_rendering() {
            vert_incremented(horz_incremented(self.spec_vram_addr()))
        } else {
            ((self.spec_vram_addr() + self.spec_vram_inc()) % 0x8000) as u16
        }
    }

    pub closed spec fn wf(&self) -> bool {
        &&& self.mapper.wf()
        &&& self.nt_internal_a.wf()
        &&& self.nt_internal_b.wf()
        &&& self.screen@.len() == 256 * 240
        &&& self.oam_data@.len() == 256
        &&& self.last_data_write <= self.current_tick
        &&& self.last_status_read <= self.current_tick
        &&& self.vram_addr <= 0x7fff
        &&& self.vram_addr_temp <= 0x7fff
        &&& self.vram_fine_x <= 7
        &&& steps_ok(self.ppu_steps, self.region)
        &&& !self.block_oam_writes ==> {
            &&& self.found_sprites < 8
            &&& self.sprite_reads <= 3
            &&& self.line_oam_index == 4 * self.found_sprites + if self.sprite_reads == 0 {
                0
            } else {
                4 - self.sprite_reads
            }
        }
        &&& self.sprite_reads <= 3
        &&& self.sprite_render_index <= 8
        &&& forall|i: int| 0 <= i < 8 ==> #[trigger] self.sprite_data@[i].active <= 9
    }

    /// Nametable RAM zeroed, OAM zeroed, the palette filled with $0F and the
    /// screen with $0F, everything else zero, at the start of the schedule.
    pub fn new(region: Region, mapper: RcMapper) -> (r: Ppu)
        requires
            mapper.wf(),
        ensures
            r.wf(),
            r.spec_mapper() == mapper,
            r.spec_region() == region,
            r.spec_regs() == Seq::new(8, |i: int| 0u8),
            r.spec_mask() == 0,
            !r.spec_vblank() && !r.spec_sprite_zero_hit() && !r.spec_sprite_overflow(),
            !r.spec_write_latch(),
            r.spec_read_buffer() == 0,
            r.spec_vram_addr() == 0 && r.spec_vram_addr_temp() == 0 && r.spec_fine_x() == 0,
            r.spec_oam_addr() == 0,
            r.spec_oam() == Seq::new(256, |i: int| 0u8),
            r.spec_palette() == Seq::new(32, |i: int| 0x0fu8),
            r.spec_screen() == Seq::new(256 * 240, |i: int| 0x0fu16),
            r.spec_tick() == 0,
            r.spec_frame() == 0,
            r.spec_reset_delay() == 0,
    {
        let mut screen: Vec<u16> = Vec::new();
        let mut i: usize = 0;
        while i < 256 * 240
            invariant
                i <= 256 * 240,
                screen@ == Seq::new(i as nat, |j: int| 0x0fu16),
            decreases 256 * 240 - i,
        {
            screen.push(0x0f);
            i += 1;
        }
        let mut oam_data: Vec<u8> = Vec::new();
        let mut i: usize = 0;
        while i < 256
            invariant
                i <= 256,
                oam_data@ == Seq::new(i as nat, |j: int| 0u8),
            decreases 256 - i,
        {
            oam_data.push(0);
            i += 1;
        }
        let s = SpriteData::new();
        let steps = generate_steps(region);
        proof {
            reveal(steps_ok);
        }
        let r = Ppu {
            region,
            mapper,
            nt_internal_a: FixedMemoryBlock::new(),
            nt_internal_b: FixedMemoryBlock::new(),
            screen,
            current_tick: 0,
            last_status_read: 0,
            last_data_write: 0,
            frame: 0,
            regs: [0; 8],
            vblank: false,
            sprite_zero_hit: false,
            sprite_overflow: false,
            open_bus: OpenBus::new(),
            write_latch: false,
            data_read_buffer: 0,
            vram_addr: 0,
            vram_addr_temp: 0,
            vram_fine_x: 0,
            oam_addr: 0,
            oam_data,
            line_oam_data: [0; 32],
            palette_data: [0x0f; 32],
            nametable_tile: 0,
            attribute_low: 0,
            attribute_high: 0,
            pattern_low: 0,
            pattern_high: 0,
            low_bg_shift: 0,
            high_bg_shift: 0,
            low_attr_shift: 0,
            high_attr_shift: 0,
            next_sprite_byte: 0,
            sprite_read_loop: false,
            block_oam_writes: false,
            found_sprites: 0,
            sprite_reads: 0,
            line_oam_index: 0,
            sprite_zero_on_line: false,
            sprite_zero_on_next_line: false,
            sprite_any_on_line: false,
            sprite_data: [s, s, s, s, s, s, s, s],
            sprite_render_index: 0,
            reset_delay: 0,
            ppu_mask: DelayReg::new(0),
            ppu_steps: steps,
            step: PpuStep { background: None, sprite: None, state: None, scanline: 0, dot: 0 },
        };
        assert(r.regs@ =~= Seq::new(8, |i: int| 0u8));
        assert(forall|i: int| 0 <= i < 8 ==> #[trigger] r.sprite_data@[i] == s);
        assert(r.palette_data@ =~= Seq::new(32, |i: int| 0x0fu8));
        r
    }

    /// $2000-$3FFF, the eight registers mirrored, for reads and writes.
    pub fn register(&self, cpu: &mut AddressBus)
        ensures
            final(cpu).reads() == old(cpu).reads().push(
                (MappingFn::RangeAndMask(RangeAndMask(0x2000, 0x4000, 0x2007)), DeviceKind::Ppu),
            ),
            final(cpu).writes() == old(cpu).writes().push(
                (MappingFn::RangeAndMask(RangeAndMask(0x2000, 0x4000, 0x2007)), DeviceKind::Ppu),
            ),
    {
        cpu.register_read(DeviceKind::Ppu, RangeAndMask(0x2000, 0x4000, 0x2007).into());
        cpu.register_write(DeviceKind::Ppu, RangeAndMask(0x2000, 0x4000, 0x2007).into());
    }

    fn is_rendering(&self) -> (r: bool)
        ensures
            r == self.spec_rendering(),
    {
        self.ppu_mask.value() & 0x18 != 0
    }

    fn in_vblank(&self) -> (r: bool)
        ensures
            r == self.spec_in_vblank(),
    {
        self.step.scanline >= self.region.vblank_line() && self.step.scanline < self.region.prerender_line()
    }

    fn ppu_status(&self) -> (r: u8)
        ensures
            r == self.spec_status(),
    {
        let mut value: u8 = 0;
        if self.sprite_overflow {
            value = value + 0x20;
        }
        if self.sprite_zero_hit {
            value = value + 0x40;
        }
        if self.vblank {
            value = value + 0x80;
        }
        value
    }

    fn vram_inc(&self) -> (r: u16)
        ensures
            r == self.spec_vram_inc(),
    {
        if self.regs[0] & 0x04 != 0 {
            0x20
        } else {
            0x01
        }
    }

    fn is_grayscale(&self) -> (r: bool)
        ensures
            r == self.spec_grayscale(),
    {
        self.regs[1] & 0x01 != 0
    }

    fn palette_read(&self, addr: u16) -> (r: u8)
        ensures
            r == self.spec_palette_read(addr),
    {
        let idx = if addr % 4 != 0 { addr % 32 } else { addr % 16 };
        let value = self.palette_data[idx as usize];
        if self.is_grayscale() {
            value & 0x30
        } else {
            value
        }
    }

    fn horz_increment(&mut self)
        requires
            old(self).vram_addr <= 0x7fff,
        ensures
            final(self).vram_addr == horz_incremented(old(self).vram_addr),
            final(self).vram_addr <= 0x7fff,
            *final(self) == (Ppu { vram_addr: final(self).vram_addr, ..*old(self) }),
    {
        let addr = self.vram_addr;
        proof {
            lemma_horz(addr);
        }
        if addr % 32 == 31 {
            self.vram_addr = (addr - 31) ^ 0x0400;
        } else {
            self.vram_addr = addr + 1;
        }
    }

    fn vert_increment(&mut self)
        requires
            old(self).vram_addr <= 0x7fff,
        ensures
            final(self).vram_addr == vert_incremented(old(self).vram_addr),
            final(self).vram_addr <= 0x7fff,
            *final(self) == (Ppu { vram_addr: final(self).vram_addr, ..*old(self) }),
    {
        let addr = self.vram_addr;
        proof {
            lemma_vert(addr);
        }
        if addr / 0x1000 % 8 != 7 {
            self.vram_addr = addr + 0x1000;
        } else {
            let a = addr % 0x1000 + addr / 0x8000 * 0x8000;
            let y = a / 32 % 32;
            let rest = a - y * 32;
            self.vram_addr = if y == 29 {
                rest ^ 0x0800
            } else if y == 31 {
                rest
            } else {
                rest + (y + 1) * 32
            };
        }
    }
}

/// A coarse X step keeps the address within 15 bits.
proof fn lemma_horz(addr: u16)
    requires
        addr <= 0x7fff,
    ensures
        horz_incremented(addr) <= 0x7fff,
{
    if addr % 32 == 31 {
        let b = (addr - 31) as u16;
        assert(b <= 0x7fff ==> b ^ 0x0400 <= 0x7fff) by (bit_vector);
    }
}

/// A fine Y step keeps the address within 15 bits.
proof fn lemma_vert(addr: u16)
    requires
        addr <= 0x7fff,
    ensures
        vert_incremented(addr) <= 0x7fff,
{
    if addr / 0x1000 % 8 == 7 {
        let a = (addr % 0x1000 + addr / 0x8000 * 0x8000) as u16;
        let y = a / 32 % 32;
        let rest = (a - y * 32) as u16;
        assert(rest <= 0x0fff);
        assert(rest <= 0x0fff ==> rest ^ 0x0800 <= 0x0fff) by (bit_vector);
    }
}

} // verus!

verus! {

use vstd::array::spec_array_update;

/// The PPU bus has 14 address lines; masking by none leaves a byte.
proof fn lemma_low14(address: u16)
    by (bit_vector)
    ensures
        address & 0x3fff < 0x4000,
        forall|v: u8| #[trigger] (v & !0u8) == v,
{
}

/// Driving the bits of a mask leaves the others as they were.
proof fn lemma_mask_merge(a: u8, b: u8, m: u8)
    by (bit_vector)
    ensures
        ((a & !m) | (b & m)) & !m == a & !m,
{
}

/// The scroll and address latch arithmetic keeps 15 bits.
proof fn lemma_latch_bits(t: u16, v: u8)
    by (bit_vector)
    requires
        t <= 0x7fff,
    ensures
        (t & 0xf3ff) | (((v as u16) & 3) << 10u16) <= 0x7fff,
        (t & 0x0c1f) | (((v as u16) & 0xf8) << 2u16) | (((v as u16) & 7) << 12u16) <= 0x7fff,
        (t & 0x7fe0) | ((v >> 3u8) as u16) <= 0x7fff,
        (t & 0x7f00) | (v as u16) <= 0x7fff,
        (t & 0x00ff) | (((v & 0x3f) as u16) << 8u16) <= 0x7fff,
        (v & 7) as u16 <= 7,
{
}

impl Ppu {
    /// Everything but the mapper and the nametable RAM agrees.
    pub closed spec fn same_but_mem(&self, other: &Ppu) -> bool {
        *self == (Ppu { mapper: self.mapper, nt_internal_a: self.nt_internal_a, nt_internal_b: self.nt_internal_b, ..*other })
    }

    /// Everything but the open bus and the OAM agrees.
    pub closed spec fn same_but_bus_and_oam(&self, other: &Ppu) -> bool {
        *self == (Ppu { open_bus: self.open_bus, oam_data: self.oam_data, ..*other })
    }

    /// OAM after a CPU write: $2004 outside rendering stores the byte at the
    /// OAM address (bits 2-4 of attribute bytes read back 0).
    pub open spec fn oam_written(&self, address: u16, value: u8) -> Seq<u8> {
        if address == 0x2004 && !(!self.spec_in_vblank() && self.spec_rendering()) {
            self.spec_oam().update(
                self.spec_oam_addr() as int,
                if self.spec_oam_addr() % 4 == 2 { value & 0xe3 } else { value },
            )
        } else {
            self.spec_oam()
        }
    }

    /// Everything but the open bus, the mapper and the nametable RAM agrees.
    pub closed spec fn same_but_bus_and_mem(&self, other: &Ppu) -> bool {
        *self == (Ppu {
            open_bus: self.open_bus,
            mapper: self.mapper,
            nt_internal_a: self.nt_internal_a,
            nt_internal_b: self.nt_internal_b,
            ..*other
        })
    }

    /// The register file after a CPU write to $2000-$2006: while a reset
    /// is pending $2000, $2001, $2005 and $2006 are ignored; $2000 also sets
    /// the nametable bits of the latch, $2001 feeds the delayed mask, $2004
    /// writes OAM (bits 2-4 of attribute bytes read back 0) unless
    /// rendering, which only bumps the address by 4; $2005 and $2006 load
    /// the latch in two halves, the second $2006 half copying it into the
    /// VRAM address.
    pub closed spec fn regs_written(self, address: u16, value: u8) -> Ppu {
        let v = value as u16;
        let t = self.vram_addr_temp;
        if address == 0x2000 {
            if self.reset_delay != 0 {
                self
            } else {
                Ppu {
                    regs: spec_array_update(self.regs, 0, value),
                    vram_addr_temp: (t & 0xf3ff) | ((v & 3) << 10u16),
                    ..self
                }
            }
        } else if address == 0x2001 {
            if self.reset_delay != 0 {
                self
            } else {
                Ppu {
                    regs: spec_array_update(self.regs, 1, value),
                    ppu_mask: DelayReg { values: spec_array_update(self.ppu_mask.values, 3, value) },
                    ..self
                }
            }
        } else if address == 0x2002 {
            Ppu { regs: spec_array_update(self.regs, 2, value), ..self }
        } else if address == 0x2003 {
            Ppu { oam_addr: value, ..self }
        } else if address == 0x2004 {
            if !self.spec_in_vblank() && self.spec_rendering() {
                Ppu { oam_addr: self.oam_addr.wrapping_add(4), ..self }
            } else {
                Ppu { oam_addr: self.oam_addr.wrapping_add(1), ..self }
            }
        } else if address == 0x2005 {
            if self.reset_delay != 0 {
                self
            } else if self.write_latch {
                Ppu {
                    vram_addr_temp: (t & 0x0c1f) | ((v & 0xf8) << 2u16) | ((v & 7) << 12u16),
                    write_latch: false,
                    ..self
                }
            } else {
                Ppu {
                    vram_addr_temp: (t & 0x7fe0) | ((value >> 3u8) as u16),
                    vram_fine_x: (value & 7) as u16,
                    write_latch: true,
                    ..self
                }
            }
        } else if address == 0x2006 {
            if self.reset_delay != 0 {
                self
            } else if self.write_latch {
                let nt = (t & 0x7f00) | v;
                Ppu { vram_addr_temp: nt, vram_addr: nt, write_latch: false, ..self }
            } else {
                Ppu { vram_addr_temp: (t & 0x00ff) | (((value & 0x3f) as u16) << 8u16), write_latch: true, ..self }
            }
        } else {
            self
        }
    }
}

} // verus!

verus! {

impl Ppu {
    /// A PPU bus read: the board picks the nametable page (and may watch
    /// the address); pattern data and external pages come from the board.
    fn ppu_read(&mut self, address: u16) -> (r: u8)
        requires
            old(self).wf(),
        ensures
            final(self).wf(),
            final(self).same_but_mem(&*old(self)),
            final(self).nt_internal_a == old(self).nt_internal_a,
            final(self).nt_internal_b == old(self).nt_internal_b,
            r == old(self).spec_ppu_peek(address),
    {
        let a = address & 0x3fff;
        proof {
            lemma_low14(address);
            lemma_ppu_bus(&self.mapper, a);
        }
        let bank = self.mapper.ppu_fetch(a, PpuFetchKind::Read);
        match bank {
            Nametable::InternalA => self.nt_internal_a.read(address),
            Nametable::InternalB => self.nt_internal_b.read(address),
            Nametable::External => {
                if self.mapper.ppu_readable(a) {
                    self.mapper.read(BusKind::Ppu, a)
                } else {
                    0
                }
            },
        }
    }

    /// The byte a PPU bus read would see at `address`, without side
    /// effects: the internal nametable page the board selects, or the
    /// board's own byte.
    pub fn ppu_peek(&self, address: u16) -> (r: u8)
        requires
            self.wf(),
        ensures
            r == self.spec_ppu_peek(address),
    {
        let a = address & 0x3fff;
        proof {
            lemma_low14(address);
            lemma_ppu_bus(&self.mapper, a);
        }
        let bank = self.mapper.peek_ppu_fetch(a, PpuFetchKind::Read);
        match bank {
            Nametable::InternalA => self.nt_internal_a.read(address),
            Nametable::InternalB => self.nt_internal_b.read(address),
            Nametable::External => {
                if self.mapper.ppu_readable(a) {
                    self.mapper.peek(BusKind::Ppu, a)
                } else {
                    0
                }
            },
        }
    }

    /// The PPU bus at `address` (its low 14 bits for the board).
    pub closed spec fn spec_ppu_peek(&self, address: u16) -> u8 {
        let a = address & 0x3fff;
        match self.mapper.spec_nametable(a) {
            Nametable::InternalA => self.nt_internal_a@[(address as int) % 1024],
            Nametable::InternalB => self.nt_internal_b@[(address as int) % 1024],
            Nametable::External => if self.mapper.readable(BusKind::Ppu, a) {
                self.mapper.spec_peek(BusKind::Ppu, a)
            } else {
                0
            },
        }
    }

    /// A PPU bus write, to the nametable page the board picks or to the
    /// board.
    fn ppu_write(&mut self, address: u16, value: u8)
        requires
            old(self).wf(),
        ensures
            final(self).wf(),
            final(self).same_but_mem(&*old(self)),
            !(old(self).mapper.spec_nametable(address & 0x3fff) is External) ==> final(self).spec_ppu_peek(address)
                == value,
    {
        let a = address & 0x3fff;
        proof {
            lemma_low14(address);
            lemma_ppu_bus(&self.mapper, a);
        }
        let bank = self.mapper.ppu_fetch(a, PpuFetchKind::Write);
        proof {
            lemma_ppu_bus(&self.mapper, a);
        }
        match bank {
            Nametable::InternalA => self.nt_internal_a.write(address, value),
            Nametable::InternalB => self.nt_internal_b.write(address, value),
            Nametable::External => self.mapper.write(BusKind::Ppu, a, value),
        }
    }

    fn base_nametable(&self) -> (r: u16)
        ensures
            r == ((self.regs@[0] as u16) & 3) << 10u16,
    {
        ((self.regs[0] as u16) & 3) << 10
    }

    /// A CPU write to a register ($2000-$2007 after mirroring).
    #[verifier::spinoff_prover]
    pub fn write(&mut self, address: u16, value: u8)
        requires
            old(self).wf(),
            0x2000 <= address <= 0x2007,
        ensures
            final(self).wf(),
            final(self).spec_open_bus().updated_from(old(self).spec_open_bus(), value, 0xff),
            address != 0x2007 ==> final(self).same_but_bus_and_oam(&old(self).regs_written(address, value))
                && final(self).spec_oam() == old(self).oam_written(address, value),
            address == 0x2007 ==> final(self).same_but_bus_and_mem(&old(self).data_written(value)),
            address == 0x2007 && old(self).spec_tick() - old(self).spec_last_data_write() > 3
                && old(self).spec_vram_addr() / 0x100 % 0x40 != 0x3f && !(old(self).spec_mapper().spec_nametable(
                old(self).spec_vram_addr() & 0x3fff,
            ) is External) ==> final(self).spec_ppu_peek(old(self).spec_vram_addr()) == value,
    {
        if address == 0x2007 {
            self.write_data(value);
        } else {
            self.write_register(address, value);
        }
        self.open_bus.update(value, 0xff);
    }

    #[verifier::spinoff_prover]
    #[verifier::rlimit(100)]
    fn write_register(&mut self, address: u16, value: u8)
        requires
            old(self).wf(),
            0x2000 <= address <= 0x2006,
        ensures
            final(self).wf(),
            final(self).open_bus == old(self).open_bus,
            final(self).same_but_bus_and_oam(&old(self).regs_written(address, value)),
            final(self).spec_oam() == old(self).oam_written(address, value),
    {
        if address == 0x2000 {
            self.write_ctrl(value);
        } else if address == 0x2001 {
            self.write_mask(value);
        } else if address == 0x2002 {
            self.regs[2] = value;
        } else if address == 0x2003 {
            self.oam_addr = value;
        } else if address == 0x2004 {
            self.write_oam(value);
        } else if address == 0x2005 {
            self.write_scroll(value);
        } else {
            self.write_addr(value);
        }
    }

    fn write_ctrl(&mut self, value: u8)
        requires
            old(self).wf(),
        ensures
            final(self).wf(),
            *final(self) == old(self).regs_written(0x2000, value),
    {
        proof {
            lemma_latch_bits(self.vram_addr_temp, value);
        }
        if self.reset_delay == 0 {
            self.regs[0] = value;
            let nt = self.base_nametable();
            self.vram_addr_temp = (self.vram_addr_temp & 0xf3ff) | nt;
        }
    }

    fn write_mask(&mut self, value: u8)
        requires
            old(self).wf(),
        ensures
            final(self).wf(),
            *final(self) == old(self).regs_written(0x2001, value),
    {
        if self.reset_delay == 0 {
            self.ppu_mask.update(value);
            self.regs[1] = value;
            assert(self.ppu_mask.values == spec_array_update(old(self).ppu_mask.values, 3, value));
        }
    }

    fn write_scroll(&mut self, value: u8)
        requires
            old(self).wf(),
        ensures
            final(self).wf(),
            *final(self) == old(self).regs_written(0x2005, value),
    {
        proof {
            lemma_latch_bits(self.vram_addr_temp, value);
        }
        if self.reset_delay == 0 {
            let v = value as u16;
            if self.write_latch {
                self.vram_addr_temp = (self.vram_addr_temp & 0x0c1f) | ((v & 0xf8) << 2) | ((v & 7) << 12);
            } else {
                self.vram_addr_temp = (self.vram_addr_temp & 0x7fe0) | ((value >> 3) as u16);
                self.vram_fine_x = (value & 7) as u16;
            }
            self.write_latch = !self.write_latch;
        }
    }

    fn write_addr(&mut self, value: u8)
        requires
            old(self).wf(),
        ensures
            final(self).wf(),
            *final(self) == old(self).regs_written(0x2006, value),
    {
        proof {
            lemma_latch_bits(self.vram_addr_temp, value);
        }
        if self.reset_delay == 0 {
            if self.write_latch {
                self.vram_addr_temp = (self.vram_addr_temp & 0x7f00) | (value as u16);
                self.vram_addr = self.vram_addr_temp;
            } else {
                self.vram_addr_temp = (self.vram_addr_temp & 0x00ff) | (((value & 0x3f) as u16) << 8);
            }
            self.write_latch = !self.write_latch;
        }
    }

    fn write_oam(&mut self, value: u8)
        requires
            old(self).wf(),
        ensures
            final(self).wf(),
            final(self).same_but_bus_and_oam(&old(self).regs_written(0x2004, value)),
            final(self).open_bus == old(self).open_bus,
            final(self).spec_oam() == old(self).oam_written(0x2004, value),
    {
        if !self.in_vblank() && self.is_rendering() {
            self.oam_addr = self.oam_addr.wrapping_add(4);
        } else {
            let a = self.oam_addr as usize;
            if self.oam_addr % 4 == 2 {
                self.oam_data.set(a, value & 0xe3);
            } else {
                self.oam_data.set(a, value);
            }
            self.oam_addr = self.oam_addr.wrapping_add(1);
        }
    }

    /// The registers after a $2007 write, apart from the memory it reaches:
    /// a second write within three dots (a read-modify-write instruction)
    /// first steps the address back; $3Fxx stores into palette RAM; then the
    /// address advances and the write's time is recorded.
    pub closed spec fn data_written(self, value: u8) -> Ppu {
        let rmw = self.current_tick - self.last_data_write <= 3;
        let addr = if rmw {
            ((self.vram_addr + 0x8000 - self.spec_vram_inc()) % 0x8000) as u16
        } else {
            self.vram_addr
        };
        let palette = if addr / 0x100 % 0x40 == 0x3f {
            spec_array_update(self.palette_data, palette_index(addr), value)
        } else {
            self.palette_data
        };
        let s = Ppu { vram_addr: addr, palette_data: palette, ..self };
        Ppu { vram_addr: s.spec_vram_advanced(), last_data_write: self.current_tick, ..s }
    }

    /// Palette RAM gives back what a $2007 write stored: after a write at a
    /// $3Fxx address that is not the second half of a read-modify-write, a
    /// palette read of that address (or, for entry 0 of a palette, of its
    /// mirror 16 bytes away) returns the byte, grayscale off.
    #[verifier::spinoff_prover]
    pub proof fn lemma_palette_write_read(self, value: u8)
        requires
            self.spec_vram_addr() / 0x100 % 0x40 == 0x3f,
            self.spec_tick() - self.spec_last_data_write() > 3,
            !self.spec_grayscale(),
        ensures
            self.data_written(value).spec_palette_read(self.spec_vram_addr()) == value,
            self.spec_vram_addr() % 4 == 0 && self.spec_vram_addr() % 32 < 16 ==> self.data_written(
                value,
            ).spec_palette_read((self.spec_vram_addr() + 16) as u16) == value,
    {
        let a = self.vram_addr;
        let w = self.data_written(value);
        assert(w.regs == self.regs);
        assert(w.palette_data == spec_array_update(self.palette_data, palette_index(a), value));
        assert(0 <= palette_index(a) < 32);
        assert(a % 4 == 0 && a % 32 < 16 ==> palette_index((a + 16) as u16) == palette_index(a));
    }

    fn write_data(&mut self, value: u8)
        requires
            old(self).wf(),
        ensures
            final(self).wf(),
            final(self).same_but_mem(&old(self).data_written(value)),
            old(self).current_tick - old(self).last_data_write > 3 && old(self).vram_addr / 0x100 % 0x40 != 0x3f
                && !(old(self).mapper.spec_nametable(old(self).vram_addr & 0x3fff) is External)
                ==> final(self).spec_ppu_peek(old(self).vram_addr) == value,
    {
        let rmw_write = self.current_tick - self.last_data_write <= 3;
        self.rmw_adjust(rmw_write);
        let ghost s1 = *self;
        self.store_data(value, rmw_write);
        let ghost s2 = *self;
        self.advance_vram();
        self.last_data_write = self.current_tick;
        proof {
            let addr = s1.vram_addr;
            let palette = if addr / 0x100 % 0x40 == 0x3f {
                spec_array_update(old(self).palette_data, palette_index(addr), value)
            } else {
                old(self).palette_data
            };
            let t = Ppu { vram_addr: addr, palette_data: palette, ..*old(self) };
            assert(s2.same_but_mem(&t));
            assert(s2.spec_vram_advanced() == t.spec_vram_advanced());
        }
    }

    /// A second $2007 write within three dots steps the address back.
    fn rmw_adjust(&mut self, rmw: bool)
        requires
            old(self).wf(),
        ensures
            final(self).wf(),
            *final(self) == (Ppu {
                vram_addr: if rmw {
                    ((old(self).vram_addr + 0x8000 - old(self).spec_vram_inc()) % 0x8000) as u16
                } else {
                    old(self).vram_addr
                },
                ..*old(self)
            }),
    {
        if rmw {
            let inc = self.vram_inc();
            self.vram_addr = (self.vram_addr + 0x8000 - inc) % 0x8000;
        }
    }

    /// Stores a $2007 byte: palette RAM at $3Fxx, else the PPU bus (twice
    /// for a read-modify-write, the first time at the value's own low byte).
    #[verifier::spinoff_prover]
    fn store_data(&mut self, value: u8, rmw: bool)
        requires
            old(self).wf(),
        ensures
            final(self).wf(),
            final(self).same_but_mem(&(Ppu {
                palette_data: if old(self).vram_addr / 0x100 % 0x40 == 0x3f {
                    spec_array_update(old(self).palette_data, palette_index(old(self).vram_addr), value)
                } else {
                    old(self).palette_data
                },
                ..*old(self)
            })),
            !rmw && old(self).vram_addr / 0x100 % 0x40 != 0x3f && !(old(self).mapper.spec_nametable(
                old(self).vram_addr & 0x3fff,
            ) is External) ==> final(self).spec_ppu_peek(old(self).vram_addr) == value,
    {
        let addr = self.vram_addr;
        if addr / 0x100 % 0x40 == 0x3f {
            let idx = if addr % 4 != 0 { addr % 32 } else { addr % 16 };
            self.palette_data[idx as usize] = value;
        } else {
            if rmw {
                let rmw_addr = (addr / 0x100 * 0x100) + value as u16;
                self.ppu_write(rmw_addr, value);
            }
            self.ppu_write(addr, value);
        }
    }

    /// The address step after a $2007 access.
    fn advance_vram(&mut self)
        requires
            old(self).vram_addr <= 0x7fff,
        ensures
            final(self).vram_addr == old(self).spec_vram_advanced(),
            final(self).vram_addr <= 0x7fff,
            *final(self) == (Ppu { vram_addr: final(self).vram_addr, ..*old(self) }),
    {
        if !self.in_vblank() && self.is_rendering() {
            self.horz_increment();
            self.vert_increment();
        } else {
            let inc = self.vram_inc();
            self.vram_addr = (self.vram_addr + inc) % 0x8000;
        }
    }

    /// What a read would return, without side effects.
    pub fn peek(&self, address: u16) -> (r: u8)
        requires
            0x2000 <= address <= 0x2007,
            self.wf(),
        ensures
            r == self.spec_peek(address),
    {
        if address == 0x2002 {
            self.ppu_status() | self.open_bus.value(0xe0)
        } else if address == 0x2004 {
            self.oam_data[self.oam_addr as usize]
        } else if address == 0x2007 {
            let addr = self.vram_addr;
            if addr / 0x100 % 0x40 == 0x3f {
                self.palette_read(addr) | self.open_bus.value(0x3f)
            } else {
                self.data_read_buffer | self.open_bus.value(0xff)
            }
        } else {
            self.open_bus.value(0x00)
        }
    }

    /// The side-effect-free read: $2002 the status over the open bus's low
    /// five bits, $2004 the OAM byte, $2007 palette RAM (over the open bus's
    /// top two bits) or the read buffer, the rest the open bus.
    pub open spec fn spec_peek(&self, address: u16) -> u8 {
        let ob = self.spec_open_bus().spec_value();
        if address == 0x2002 {
            self.spec_status() | (ob & !0xe0u8)
        } else if address == 0x2004 {
            self.spec_oam()[self.spec_oam_addr() as int]
        } else if address == 0x2007 {
            let addr = self.spec_vram_addr();
            if addr / 0x100 % 0x40 == 0x3f {
                self.spec_palette_read(addr) | (ob & !0x3fu8)
            } else {
                self.spec_read_buffer() | (ob & !0xffu8)
            }
        } else {
            ob & !0u8
        }
    }

    /// A CPU read of a register. $2002 returns the status (and drops the
    /// vblank flag and the write latch, noting when); $2004 the OAM byte or,
    /// while rendering, the byte the sprite unit is reading; $2007 the
    /// palette or the buffered byte, refilling the buffer from VRAM and
    /// advancing the address. The bits a register drives refresh the open
    /// bus.
    #[verifier::spinoff_prover]
    #[verifier::rlimit(60)]
    pub fn read(&mut self, address: u16) -> (r: u8)
        requires
            old(self).wf(),
            0x2000 <= address <= 0x2007,
        ensures
            final(self).wf(),
            address == 0x2002 ==> {
                let status = old(self).spec_status();
                &&& r == status | (old(self).spec_open_bus().spec_value() & !0xe0u8)
                &&& final(self).spec_open_bus().updated_from(old(self).spec_open_bus(), status, 0xe0)
                &&& final(self).same_but_bus_and_oam(&old(self).status_read())
                &&& final(self).spec_oam() == old(self).spec_oam()
            },
            address == 0x2004 ==> {
                let value = if old(self).spec_rendering() && !old(self).spec_in_vblank() {
                    old(self).spec_next_sprite_byte()
                } else {
                    old(self).spec_oam()[old(self).spec_oam_addr() as int]
                };
                &&& r == value
                &&& final(self).spec_open_bus().updated_from(old(self).spec_open_bus(), value, 0xff)
                &&& final(self).same_but_bus_and_oam(&*old(self))
                &&& final(self).spec_oam() == old(self).spec_oam()
            },
            address == 0x2007 ==> {
                let addr = old(self).spec_vram_addr();
                let (value, mask) = if addr / 0x100 % 0x40 == 0x3f {
                    (old(self).spec_palette_read(addr), 0x3fu8)
                } else {
                    (old(self).spec_read_buffer(), 0xffu8)
                };
                &&& r == value | (old(self).spec_open_bus().spec_value() & !mask)
                &&& final(self).spec_open_bus().updated_from(old(self).spec_open_bus(), value, mask)
                &&& final(self).spec_vram_addr() == old(self).spec_vram_advanced()
                &&& final(self).spec_read_buffer() == old(self).spec_ppu_peek(addr)
                &&& final(self).same_but_bus_and_mem(&old(self).data_read(final(self).spec_read_buffer()))
            },
            address != 0x2002 && address != 0x2004 && address != 0x2007 ==> r == old(self).spec_open_bus().spec_value()
                && *final(self) == *old(self),
    {
        if address == 0x2002 {
            let status = self.ppu_status();
            self.write_latch = false;
            self.vblank = false;
            self.last_status_read = self.current_tick;
            self.open_bus.update(status, 0xe0);
            proof {
                lemma_mask_merge(old(self).open_bus.value, status, 0xe0);
            }
            status | self.open_bus.value(0xe0)
        } else if address == 0x2004 {
            let value = if self.is_rendering() && !self.in_vblank() {
                self.next_sprite_byte
            } else {
                self.oam_data[self.oam_addr as usize]
            };
            self.open_bus.update(value, 0xff);
            value
        } else if address == 0x2007 {
            let addr = self.vram_addr;
            let (result, mask) = if addr / 0x100 % 0x40 == 0x3f {
                (self.palette_read(addr), 0x3fu8)
            } else {
                (self.data_read_buffer, 0xffu8)
            };
            let before = self.open_bus.value(mask);
            self.open_bus.update(result, mask);
            proof {
                lemma_mask_merge(old(self).open_bus.value, result, mask);
            }
            let fetched = self.ppu_read(addr);
            self.data_read_buffer = fetched;
            self.advance_vram();
            result | self.open_bus.value(mask)
        } else {
            proof {
                lemma_low14(address);
            }
            self.open_bus.value(0x00)
        }
    }

    /// The state after a $2002 read, apart from the open bus.
    pub closed spec fn status_read(self) -> Ppu {
        Ppu { write_latch: false, vblank: false, last_status_read: self.current_tick, ..self }
    }

    /// The registers after a $2007 read that refilled the buffer with
    /// `buffer`, apart from the memory and the open bus.
    pub closed spec fn data_read(self, buffer: u8) -> Ppu {
        Ppu { data_read_buffer: buffer, vram_addr: self.spec_vram_advanced(), ..self }
    }

    /// The NMI line: vertical blank with NMIs enabled (bit 7 of $2000).
    pub fn nmi(&self) -> (r: bool)
        ensures
            r == (self.spec_vblank() && self.spec_regs()[0] & 0x80 != 0),
    {
        self.vblank && self.regs[0] & 0x80 != 0
    }

    pub fn frame(&self) -> (r: u32)
        ensures
            r == self.spec_frame(),
    {
        self.frame
    }

    /// The frame's palette indices (with the emphasis bits above them), 256
    /// per line.
    pub fn screen(&self) -> (r: &[u16])
        ensures
            r@ == self.spec_screen(),
    {
        self.screen.as_slice()
    }

    /// A snapshot for the debugger; the status and OAM address registers
    /// show their current values.
    pub fn debug_state(&self) -> (r: PpuDebugState)
        requires
            self.wf(),
        ensures
            r.tick == self.spec_tick(),
            r.scanline == self.spec_step().scanline,
            r.dot == self.spec_step().dot,
            r.vblank == self.spec_vblank(),
            r.nmi == (self.spec_vblank() && self.spec_regs()[0] & 0x80 != 0),
            r.sprite_zero_hit == self.spec_sprite_zero_hit(),
            r.registers@ == self.spec_regs().update(2, self.spec_status()).update(3, self.spec_oam_addr()),
    {
        let mut registers = self.regs;
        registers[2] = self.ppu_status();
        registers[3] = self.oam_addr;
        PpuDebugState {
            tick: self.current_tick,
            scanline: self.step.scanline,
            dot: self.step.dot,
            vblank: self.vblank,
            nmi: self.nmi(),
            sprite_zero_hit: self.sprite_zero_hit,
            registers,
        }
    }

    /// Power-on: the control, mask, OAM address, scroll and address
    /// registers written with zero (the status slot with $A0), the read
    /// buffer and pending reset cleared.
    pub fn power(&mut self)
        requires
            old(self).wf(),
        ensures
            final(self).wf(),
            final(self).spec_read_buffer() == 0,
            final(self).spec_reset_delay() == 0,
    {
        self.write(0x2000, 0);
        self.write(0x2001, 0);
        self.write(0x2002, 0xa0);
        self.write(0x2003, 0);
        self.write(0x2005, 0);
        self.write(0x2005, 0);
        self.write(0x2006, 0);
        self.write(0x2006, 0);
        self.data_read_buffer = 0;
        self.reset_delay = 0;
    }

    /// Reset: control, mask and scroll written with zero, the read buffer
    /// cleared, and register writes ignored for the next 88974 dots.
    pub fn reset(&mut self)
        requires
            old(self).wf(),
        ensures
            final(self).wf(),
            final(self).spec_read_buffer() == 0,
            final(self).spec_reset_delay() == 88974,
    {
        self.write(0x2000, 0);
        self.write(0x2001, 0);
        self.write(0x2005, 0);
        self.write(0x2005, 0);
        self.data_read_buffer = 0;
        self.reset_delay = 29658 * 3;
    }
}

} // verus!

verus! {

impl Ppu {
    /// The fields the rendering pipeline leaves alone: the register file,
    /// palette, OAM, the clock and the frame flags.
    pub closed spec fn pipeline_frame(&self, other: &Ppu) -> bool {
        &&& self.pipeline_frame_but_screen(other)
        &&& self.screen@ == other.screen@
    }

    /// The fields the pipelines leave alone, but for the frame buffer.
    pub closed spec fn pipeline_frame_but_screen(&self, other: &Ppu) -> bool {
        &&& self.region == other.region
        &&& self.regs == other.regs
        &&& self.palette_data == other.palette_data
        &&& self.oam_data == other.oam_data
        &&& self.current_tick == other.current_tick
        &&& self.last_status_read == other.last_status_read
        &&& self.last_data_write == other.last_data_write
        &&& self.frame == other.frame
        &&& self.vblank == other.vblank
        &&& self.reset_delay == other.reset_delay
        &&& self.ppu_mask == other.ppu_mask
        &&& self.ppu_steps == other.ppu_steps
        &&& self.step == other.step
        &&& self.write_latch == other.write_latch
        &&& self.data_read_buffer == other.data_read_buffer
        &&& self.vram_addr_temp == other.vram_addr_temp
        &&& self.vram_fine_x == other.vram_fine_x
        &&& self.open_bus == other.open_bus
    }

    fn is_tall_sprites(&self) -> (r: bool)
        ensures
            r == (self.regs@[0] & 0x20 != 0),
    {
        self.regs[0] & 0x20 != 0
    }

    fn background_pattern_table(&self) -> (r: u16)
        ensures
            r == if self.regs@[0] & 0x10 != 0 { 0x1000u16 } else { 0u16 },
    {
        if self.regs[0] & 0x10 != 0 {
            0x1000
        } else {
            0x0000
        }
    }

    fn sprite_pattern_table(&self) -> (r: u16)
        ensures
            r == if self.regs@[0] & 0x08 != 0 { 0x1000u16 } else { 0u16 },
    {
        if self.regs[0] & 0x08 != 0 {
            0x1000
        } else {
            0x0000
        }
    }

    /// The colour emphasis bits of $2001 (bits 5-7) placed at bits 6-8 of
    /// a screen entry, in the region's channel order.
    fn emph_bits(&self) -> (r: u16)
        ensures
            r <= 0x1c0,
            r == self.spec_emph(),
    {
        let red = self.regs[1] & 0x20 != 0;
        let green = self.regs[1] & 0x40 != 0;
        let blue = self.regs[1] & 0x80 != 0;
        let mut val: u16 = 0;
        match self.region.emph_bits() {
            EmphMode::Bgr => {
                if red {
                    val = val + 0x40;
                }
                if green {
                    val = val + 0x80;
                }
                if blue {
                    val = val + 0x100;
                }
            },
            EmphMode::Brg => {
                if green {
                    val = val + 0x40;
                }
                if red {
                    val = val + 0x80;
                }
                if blue {
                    val = val + 0x100;
                }
            },
        }
        val
    }

    /// Copies the horizontal scroll (coarse X and the nametable's X bit)
    /// from the latch.
    fn horz_reset(&mut self)
        requires
            old(self).wf(),
        ensures
            final(self).wf(),
            final(self).vram_addr == (old(self).vram_addr & 0xfbe0) | (old(self).vram_addr_temp & 0x041f),
            *final(self) == (Ppu { vram_addr: final(self).vram_addr, ..*old(self) }),
    {
        let addr = self.vram_addr;
        let t = self.vram_addr_temp;
        proof {
            lemma_reset_bits(addr, t);
        }
        self.vram_addr = (addr & 0xfbe0) | (t & 0x041f);
    }

    /// Copies the vertical scroll (fine and coarse Y, the nametable's Y
    /// bit) from the latch.
    fn vert_reset(&mut self)
        requires
            old(self).wf(),
        ensures
            final(self).wf(),
            final(self).vram_addr == (old(self).vram_addr & 0x841f) | (old(self).vram_addr_temp & 0x7be0),
            *final(self) == (Ppu { vram_addr: final(self).vram_addr, ..*old(self) }),
    {
        let addr = self.vram_addr;
        let t = self.vram_addr_temp;
        proof {
            lemma_reset_bits(addr, t);
        }
        self.vram_addr = (addr & 0x841f) | (t & 0x7be0);
    }

    /// Loads the fetched tile into the low bytes of the shift registers.
    fn load_bg_shifters(&mut self)
        requires
            old(self).wf(),
        ensures
            final(self).same_eval_inputs(&*old(self)),
            final(self).same_pixel_inputs(&*old(self)),
            final(self).wf(),
            final(self).pipeline_frame(&*old(self)),
            final(self).vram_addr == old(self).vram_addr,
            final(self).sprite_zero_hit == old(self).sprite_zero_hit,
            final(self).sprite_overflow == old(self).sprite_overflow,
    {
        proof {
            crate::bits::lemma_u8(self.attribute_low);
            crate::bits::lemma_u8(self.attribute_high);
            lemma_reload_low(self.low_bg_shift, self.pattern_low as u16);
            lemma_reload_low(self.high_bg_shift, self.pattern_high as u16);
            lemma_reload_low(self.low_attr_shift, (((self.attribute_low & 1) as u16) * 0xff) as u16);
            lemma_reload_low(self.high_attr_shift, (((self.attribute_high & 1) as u16) * 0xff) as u16);
        }
        self.low_bg_shift = (self.low_bg_shift & 0xff00) | (self.pattern_low as u16);
        self.high_bg_shift = (self.high_bg_shift & 0xff00) | (self.pattern_high as u16);
        self.low_attr_shift = (self.low_attr_shift & 0xff00) | (((self.attribute_low & 1) as u16) * 0xff);
        self.high_attr_shift = (self.high_attr_shift & 0xff00) | (((self.attribute_high & 1) as u16) * 0xff);
    }

    fn fetch_nametable(&mut self)
        requires
            old(self).wf(),
        ensures
            final(self).oam_addr == old(self).oam_addr,
            final(self).same_eval_inputs(&*old(self)),
            final(self).same_pixel_inputs(&*old(self)),
            final(self).wf(),
            final(self).pipeline_frame(&*old(self)),
            final(self).vram_addr == old(self).vram_addr,
            final(self).sprite_zero_hit == old(self).sprite_zero_hit,
            final(self).sprite_overflow == old(self).sprite_overflow,
    {
        let nt_addr = 0x2000 | (self.vram_addr & 0xfff);
        self.nametable_tile = self.ppu_read(nt_addr);
    }

    /// Fetches the attribute byte of the current tile and keeps its
    /// quadrant's two palette bits.
    fn fetch_attribute(&mut self)
        requires
            old(self).wf(),
        ensures
            final(self).oam_addr == old(self).oam_addr,
            final(self).same_eval_inputs(&*old(self)),
            final(self).same_pixel_inputs(&*old(self)),
            final(self).wf(),
            final(self).pipeline_frame(&*old(self)),
            final(self).vram_addr == old(self).vram_addr,
            final(self).sprite_zero_hit == old(self).sprite_zero_hit,
            final(self).sprite_overflow == old(self).sprite_overflow,
    {
        let v = self.vram_addr;
        let at_addr = 0x23c0 | (v & 0x0c00) | ((v >> 4) & 0x38) | ((v >> 2) & 0x07);
        let attr = self.ppu_read(at_addr);

        let tile_idx = self.vram_addr % 0x400;
        let attr_row = tile_idx / 32;
        let attr_col = tile_idx % 32;
        let attr_bits = (attr_row / 2 % 2) * 2 + (attr_col / 2 % 2);
        let palette = if attr_bits == 0 {
            attr % 4
        } else if attr_bits == 1 {
            (attr / 4) % 4
        } else if attr_bits == 2 {
            (attr / 16) % 4
        } else {
            attr / 64
        };

        self.attribute_low = palette % 2;
        self.attribute_high = palette / 2;
    }

    fn fetch_low_bg_pattern(&mut self)
        requires
            old(self).wf(),
        ensures
            final(self).same_eval_inputs(&*old(self)),
            final(self).same_pixel_inputs(&*old(self)),
            final(self).wf(),
            final(self).pipeline_frame(&*old(self)),
            final(self).vram_addr == old(self).vram_addr,
            final(self).sprite_zero_hit == old(self).sprite_zero_hit,
            final(self).sprite_overflow == old(self).sprite_overflow,
    {
        let v = self.vram_addr;
        let tile_addr = ((v >> 12) & 0x07) | ((self.nametable_tile as u16) << 4) | self.background_pattern_table();
        self.pattern_low = self.ppu_read(tile_addr);
    }

    fn fetch_high_bg_pattern(&mut self)
        requires
            old(self).wf(),
        ensures
            final(self).same_eval_inputs(&*old(self)),
            final(self).same_pixel_inputs(&*old(self)),
            final(self).wf(),
            final(self).pipeline_frame(&*old(self)),
            final(self).vram_addr == old(self).vram_addr,
            final(self).sprite_zero_hit == old(self).sprite_zero_hit,
            final(self).sprite_overflow == old(self).sprite_overflow,
    {
        let v = self.vram_addr;
        let tile_addr = ((v >> 12) & 0x07) | ((self.nametable_tile as u16) << 4) | self.background_pattern_table()
            | 0x08;
        self.pattern_high = self.ppu_read(tile_addr);
    }
}

/// The scroll copies keep the address within 15 bits.
proof fn lemma_reset_bits(a: u16, t: u16)
    by (bit_vector)
    requires
        a <= 0x7fff,
        t <= 0x7fff,
    ensures
        (a & 0xfbe0) | (t & 0x041f) <= 0x7fff,
        (a & 0x841f) | (t & 0x7be0) <= 0x7fff,
{
}

} // verus!

verus! {

/// The sprite evaluation's position in OAM: sprite `n`, byte `m`.
pub struct Cursor {
    n: u8,
    m: u8,
}

impl Cursor {
    /// One byte on, into the next sprite after byte 3.
    pub closed spec fn byte_advanced(self) -> Cursor {
        let m = ((self.m + 1) % 4) as u8;
        Cursor { n: if m == 0 { self.n.wrapping_add(1) } else { self.n }, m }
    }

    /// The start of the next sprite.
    pub closed spec fn sprite_advanced(self) -> Cursor {
        Cursor { n: self.n.wrapping_add(1), m: 0 }
    }

    /// After a failed misaligned Y check.
    pub closed spec fn sprite_x_advanced(self) -> Cursor {
        if self.m == 3 { self.sprite_advanced() } else { Cursor { m: 0, ..self } }
    }

    /// The overflow search's diagonal step.
    pub closed spec fn overflow_advanced(self) -> Cursor {
        Cursor { n: self.n.wrapping_add(1), m: ((self.m + 1) % 4) as u8 }
    }

    fn new(oam_addr: u8) -> (r: Self)
        ensures
            r.n == oam_addr / 4 && r.m == oam_addr % 4,
    {
        Cursor { n: oam_addr / 4, m: oam_addr % 4 }
    }

    fn advance_byte(&mut self)
        requires
            old(self).m < 4,
        ensures
            final(self).m < 4,
            *final(self) == old(self).byte_advanced(),
    {
        self.m = (self.m + 1) % 4;
        if self.m == 0 {
            self.n = self.n.wrapping_add(1);
        }
    }

    fn advance_sprite(&mut self)
        ensures
            final(self).m == 0,
            *final(self) == old(self).sprite_advanced(),
    {
        self.n = self.n.wrapping_add(1);
        self.m = 0;
    }

    /// A misaligned Y check that fails moves to the next sprite only from
    /// byte 3; otherwise it realigns within the sprite.
    fn advance_sprite_x(&mut self)
        ensures
            final(self).m < 4,
            *final(self) == old(self).sprite_x_advanced(),
    {
        if self.m == 3 {
            self.advance_sprite();
        } else {
            self.m = 0;
        }
    }

    /// Past eight sprites the hardware steps both the sprite and the byte.
    fn advance_overflow(&mut self)
        requires
            old(self).m < 4,
        ensures
            final(self).m < 4,
            *final(self) == old(self).overflow_advanced(),
    {
        self.n = self.n.wrapping_add(1);
        self.m = (self.m + 1) % 4;
    }

    fn is_at_end(&self) -> (r: bool)
        ensures
            r == (self.n >= 64),
    {
        self.n >= 64
    }

    fn oam_addr(&self) -> (r: u8)
        requires
            self.n < 64,
            self.m < 4,
        ensures
            r == self.n * 4 + self.m,
    {
        self.n * 4 + self.m
    }
}

impl Ppu {
    /// Whether a sprite whose Y byte is `sprite_y` covers `scanline`.
    pub open spec fn spec_on_line(&self, sprite_y: u8, scanline: u32) -> bool {
        sprite_y <= 239 && sprite_y <= scanline && scanline < sprite_y + if self.spec_regs()[0] & 0x20 != 0 {
            16int
        } else {
            8
        }
    }

    /// The state and cursor after copying one more byte of a sprite found
    /// in range: the Y byte read in the second step of the copy is checked
    /// again, and a miss (a misaligned walk) moves on; the last byte
    /// counts the sprite, and the eighth blocks further copies.
    pub closed spec fn rest_evaluated(self, cursor: Cursor, scanline: u32) -> (Ppu, Cursor) {
        let c = if self.sprite_reads == 1 && !self.spec_on_line(self.next_sprite_byte, scanline) {
            cursor.sprite_x_advanced()
        } else {
            cursor.byte_advanced()
        };
        let reads = (self.sprite_reads - 1) as u32;
        let found = if reads == 0 { self.found_sprites.wrapping_add(1) } else { self.found_sprites };
        (
            Ppu {
                line_oam_index: self.line_oam_index.wrapping_add(1),
                sprite_reads: reads,
                found_sprites: found,
                block_oam_writes: if reads == 0 && found == 8 { true } else { self.block_oam_writes },
                ..self
            },
            c,
        )
    }

    /// The state and cursor after finding a sprite in range: sprite 0
    /// (met at dot 66) is noted for the next line, a ninth sprite sets the
    /// overflow flag, and three more bytes are to be copied.
    pub closed spec fn in_range_evaluated(self, cursor: Cursor, dot: u32) -> (Ppu, Cursor) {
        (
            Ppu {
                sprite_zero_on_next_line: if dot == 66 { true } else { self.sprite_zero_on_next_line },
                sprite_overflow: self.sprite_overflow || self.found_sprites == 8,
                sprite_reads: 3,
                line_oam_index: self.line_oam_index.wrapping_add(1),
                ..self
            },
            cursor.byte_advanced(),
        )
    }

    /// One step of sprite evaluation: the byte on the sprite bus goes to
    /// the line's OAM (until eight sprites are found); then the rest of an
    /// in-range sprite is copied, a new in-range sprite is started, or the
    /// walk moves on (diagonally once eight are found); the OAM address
    /// follows the walk, which stops at the end of OAM.
    pub closed spec fn evaluated(self, scanline: u32, dot: u32) -> Ppu {
        if self.sprite_read_loop {
            self
        } else {
            let c0 = Cursor { n: self.oam_addr / 4, m: self.oam_addr % 4 };
            let s2 = self.eval_started(dot);
            let (s3, c) = if s2.sprite_reads != 0 {
                s2.rest_evaluated(c0, scanline)
            } else if s2.spec_on_line(s2.next_sprite_byte, scanline) {
                s2.in_range_evaluated(c0, dot)
            } else if s2.found_sprites >= 8 {
                (s2, c0.overflow_advanced())
            } else {
                (s2, c0.sprite_advanced())
            };
            s3.eval_sought(c)
        }
    }

    /// The byte on the sprite bus stored into the line's OAM (unless eight
    /// sprites are already there); sprite 0 forgotten at dot 66.
    pub closed spec fn eval_started(self, dot: u32) -> Ppu {
        let s1 = if !self.block_oam_writes {
            Ppu {
                line_oam_data: spec_array_update(self.line_oam_data, self.line_oam_index as int, self.next_sprite_byte),
                ..self
            }
        } else {
            self
        };
        if dot == 66 { Ppu { sprite_zero_on_next_line: false, ..s1 } } else { s1 }
    }

    /// The OAM address following the walk's cursor; past the end of OAM
    /// the walk stops and the address returns to 0.
    pub closed spec fn eval_sought(self, c: Cursor) -> Ppu {
        if c.n >= 64 {
            Ppu { sprite_read_loop: true, oam_addr: 0, ..self }
        } else {
            Ppu { oam_addr: (c.n * 4 + c.m) as u8, ..self }
        }
    }

    fn eval_store(&mut self, dot: u32)
        requires
            old(self).wf(),
        ensures
            final(self).wf(),
            final(self).pipeline_frame(&*old(self)),
            *final(self) == old(self).eval_started(dot),
    {
        if !self.block_oam_writes {
            self.line_oam_data[self.line_oam_index] = self.next_sprite_byte;
        }
        if dot == 66 {
            self.sprite_zero_on_next_line = false;
        }
    }

    fn eval_seek(&mut self, cursor: &Cursor)
        requires
            old(self).wf(),
            cursor.m < 4,
        ensures
            final(self).wf(),
            final(self).pipeline_frame(&*old(self)),
            *final(self) == old(self).eval_sought(*cursor),
    {
        if cursor.is_at_end() {
            self.sprite_read_loop = true;
            self.oam_addr = 0;
        } else {
            self.oam_addr = cursor.oam_addr();
        }
    }

    /// Whether a sprite at `sprite_y` covers `scanline` (8 or 16 rows tall).
    fn sprite_on_line(&self, sprite_y: u8, scanline: u32) -> (r: bool)
        ensures
            r == self.spec_on_line(sprite_y, scanline),
            r == (sprite_y <= 239 && sprite_y <= scanline && scanline < sprite_y + if self.regs@[0] & 0x20 != 0 {
                16int
            } else {
                8
            }),
    {
        if sprite_y > 239 {
            return false;
        }
        if self.is_tall_sprites() {
            (sprite_y as u32) + 16 > scanline && (sprite_y as u32) <= scanline
        } else {
            (sprite_y as u32) + 8 > scanline && (sprite_y as u32) <= scanline
        }
    }

    /// Fetches one pattern byte of the next selected sprite: the row the
    /// line crosses (flipped vertically if asked; tall sprites take their
    /// pattern table from the tile's bit 0), blanked when the sprite is not
    /// on the line; the high byte moves on to the next sprite.
    #[verifier::spinoff_prover]
    #[verifier::rlimit(60)]
    fn sprite_fetch(&mut self, scanline: u32, high: bool)
        requires
            old(self).wf(),
        ensures
            final(self).oam_addr == old(self).oam_addr,
            final(self).wf(),
            final(self).pipeline_frame(&*old(self)),
            final(self).vram_addr == old(self).vram_addr,
            final(self).sprite_zero_hit == old(self).sprite_zero_hit,
            final(self).sprite_overflow == old(self).sprite_overflow,
    {
        let index = self.sprite_render_index;
        if index >= 8 {
            return;
        }
        let sprite_y = self.line_oam_data[index * 4];
        let sprite_tile = self.line_oam_data[(index * 4) + 1] as u16;
        let sprite_attr = self.line_oam_data[(index * 4) + 2];
        let sprite_x = self.line_oam_data[(index * 4) + 3];

        let flip_vert = sprite_attr >= 0x80;
        let tall = self.is_tall_sprites();
        let sprite_height: u32 = if tall { 16 } else { 8 };
        let line: u16 = if scanline >= sprite_y as u32 && scanline - (sprite_y as u32) < sprite_height {
            (scanline - sprite_y as u32) as u16
        } else {
            0
        };
        let tile_addr: u16 = if tall {
            let bottom_half = line >= 8;
            let line = if bottom_half { line - 8 } else { line };
            let line = if flip_vert { 7 - line } else { line };
            let pattern_table = (sprite_tile % 2) * 0x1000;
            let tile = sprite_tile / 2 * 2;
            if flip_vert == bottom_half {
                (tile * 16 + pattern_table) + line
            } else {
                ((tile + 1) * 16 + pattern_table) + line
            }
        } else {
            let line = if flip_vert { 7 - line } else { line };
            (sprite_tile * 16 + self.sprite_pattern_table()) + line
        };

        let pattern_addr = if high { tile_addr | 0x08 } else { tile_addr };
        let pattern_byte = self.ppu_read(pattern_addr);
        let on_line = self.sprite_on_line(sprite_y, scanline);
        self.sprite_any_on_line = self.sprite_any_on_line || on_line;

        let mut sprite = self.sprite_data[index];
        sprite.x = sprite_x;
        sprite.attributes = sprite_attr;
        sprite.active = 0;
        if high {
            sprite.pattern_high = if on_line { pattern_byte } else { 0 };
            self.sprite_data[index] = sprite;
            self.sprite_render_index = self.sprite_render_index + 1;
        } else {
            sprite.pattern_low = if on_line { pattern_byte } else { 0 };
            self.sprite_data[index] = sprite;
        }
    }

    fn sprite_read(&mut self)
        requires
            old(self).wf(),
        ensures
            final(self).same_pixel_inputs(&*old(self)),
            final(self).wf(),
            final(self).pipeline_frame(&*old(self)),
            final(self).vram_addr == old(self).vram_addr,
            final(self).sprite_zero_hit == old(self).sprite_zero_hit,
            final(self).sprite_overflow == old(self).sprite_overflow,
    {
        let offset = self.oam_addr % 4;
        self.sprite_oam_read(offset);
    }

    /// Puts the OAM byte at `offset` of the current sprite on the sprite
    /// unit's bus (attribute bits 2-4 read back 0).
    fn sprite_oam_read(&mut self, offset: u8)
        requires
            old(self).wf(),
            offset < 4,
        ensures
            final(self).oam_addr == old(self).oam_addr,
            final(self).same_pixel_inputs(&*old(self)),
            final(self).wf(),
            final(self).pipeline_frame(&*old(self)),
            final(self).vram_addr == old(self).vram_addr,
            final(self).sprite_zero_hit == old(self).sprite_zero_hit,
            final(self).sprite_overflow == old(self).sprite_overflow,
    {
        let byte = self.oam_data[(self.oam_addr / 4 * 4 + offset) as usize];
        self.next_sprite_byte = if offset == 2 { byte & 0xe3 } else { byte };
    }

    /// One step of sprite evaluation: copies the byte on the sprite bus into
    /// the line's OAM (until eight sprites are found), reads the remaining
    /// bytes of an in-range sprite, sets the overflow flag on a ninth, and
    /// walks OAM (with the hardware's misaligned steps) until its end.
    #[verifier::spinoff_prover]
    #[verifier::rlimit(100)]
    fn sprite_eval(&mut self, scanline: u32, dot: u32)
        requires
            old(self).wf(),
        ensures
            final(self).wf(),
            final(self).pipeline_frame(&*old(self)),
            final(self).vram_addr == old(self).vram_addr,
            final(self).sprite_zero_hit == old(self).sprite_zero_hit,
            old(self).sprite_overflow ==> final(self).sprite_overflow,
            *final(self) == old(self).evaluated(scanline, dot),
            final(self).same_pixel_inputs(&*old(self)),
    {
        if self.sprite_read_loop {
            return;
        }

        let mut cursor = Cursor::new(self.oam_addr);
        self.eval_store(dot);

        if self.sprite_reads != 0 {
            self.eval_rest_of_sprite(&mut cursor, scanline);
        } else if self.sprite_on_line(self.next_sprite_byte, scanline) {
            self.eval_sprite_in_range(&mut cursor, dot);
        } else {
            if self.found_sprites >= 8 {
                cursor.advance_overflow();
            } else {
                cursor.advance_sprite();
            }
        }

        self.eval_seek(&cursor);
    }

    /// Copies one of a found sprite's remaining bytes; the last completes it.
    fn eval_rest_of_sprite(&mut self, cursor: &mut Cursor, scanline: u32)
        requires
            old(self).wf(),
            old(self).sprite_reads != 0,
            old(cursor).m < 4,
        ensures
            final(self).wf(),
            final(cursor).m < 4,
            final(self).pipeline_frame(&*old(self)),
            final(self).vram_addr == old(self).vram_addr,
            final(self).sprite_zero_hit == old(self).sprite_zero_hit,
            final(self).sprite_overflow == old(self).sprite_overflow,
            (*final(self), *final(cursor)) == old(self).rest_evaluated(*old(cursor), scanline),
    {
        if self.sprite_reads == 1 && !self.sprite_on_line(self.next_sprite_byte, scanline) {
            cursor.advance_sprite_x();
        } else {
            cursor.advance_byte();
        }
        self.line_oam_index = self.line_oam_index.wrapping_add(1);
        self.sprite_reads = self.sprite_reads - 1;
        if self.sprite_reads == 0 {
            self.found_sprites = self.found_sprites.wrapping_add(1);
            if self.found_sprites == 8 {
                self.block_oam_writes = true;
            }
        }
    }

    /// A sprite whose Y is on the line: its three other bytes follow; a
    /// ninth sets the overflow flag.
    fn eval_sprite_in_range(&mut self, cursor: &mut Cursor, dot: u32)
        requires
            old(self).wf(),
            old(self).sprite_reads == 0,
            old(cursor).m < 4,
        ensures
            final(self).wf(),
            final(cursor).m < 4,
            final(self).pipeline_frame(&*old(self)),
            final(self).vram_addr == old(self).vram_addr,
            final(self).sprite_zero_hit == old(self).sprite_zero_hit,
            old(self).sprite_overflow ==> final(self).sprite_overflow,
            (*final(self), *final(cursor)) == old(self).in_range_evaluated(*old(cursor), dot),
    {
        if dot == 66 {
            self.sprite_zero_on_next_line = true;
        }
        if self.found_sprites == 8 && !self.sprite_overflow {
            self.sprite_overflow = true;
        }
        cursor.advance_byte();
        self.sprite_reads = 3;
        self.line_oam_index = self.line_oam_index.wrapping_add(1);
    }

    /// Clears one byte of the line's OAM (the sprite bus reads $FF).
    fn init_line_oam(&mut self, addr: u32)
        requires
            old(self).wf(),
            addr < 32,
        ensures
            final(self).same_pixel_inputs(&*old(self)),
            final(self).wf(),
            final(self).pipeline_frame(&*old(self)),
            final(self).vram_addr == old(self).vram_addr,
            final(self).sprite_zero_hit == old(self).sprite_zero_hit,
            final(self).sprite_overflow == old(self).sprite_overflow,
    {
        self.next_sprite_byte = 0xff;
        self.line_oam_data[addr as usize] = 0xff;
    }

    /// Starts a line's sprite evaluation afresh.
    fn sprite_reset(&mut self)
        requires
            old(self).wf(),
        ensures
            final(self).same_pixel_inputs(&*old(self)),
            final(self).wf(),
            final(self).pipeline_frame(&*old(self)),
            final(self).vram_addr == old(self).vram_addr,
            final(self).sprite_zero_hit == old(self).sprite_zero_hit,
            final(self).sprite_overflow == old(self).sprite_overflow,
    {
        self.sprite_render_index = 0;
        self.found_sprites = 0;
        self.sprite_reads = 0;
        self.line_oam_index = 0;
        self.sprite_read_loop = false;
        self.block_oam_writes = false;
        self.sprite_zero_on_line = self.sprite_zero_on_next_line;
        self.sprite_zero_on_next_line = false;
    }
}

} // verus!

verus! {

/// Picking bit `15 - x` of one plane and bit `14 - x` of the other gives a
/// two-bit value.
/// The colour (0 to 3) a sprite unit shows at this dot while its
/// counter is in range: the leading bits of its two pattern planes (the
/// trailing bits when flipped horizontally); a unit whose X counter has
/// run out starts its eight pixels now.
pub closed spec fn sprite_color(s: SpriteData) -> u8 {
    let active = if s.x == 0 { 1u8 } else { s.active };
    if 0 < active <= 8 {
        let flip = (s.attributes / 64) % 2 == 1;
        let high_set = if flip { s.pattern_high % 2 == 1 } else { s.pattern_high >= 0x80 };
        let low_set = if flip { s.pattern_low % 2 == 1 } else { s.pattern_low >= 0x80 };
        ((if high_set { 2int } else { 0 }) + (if low_set { 1int } else { 0 })) as u8
    } else {
        0
    }
}

/// The sprite colour with the left eight columns hidden unless `left`.
pub closed spec fn shown_color(s: SpriteData, dot: u32, left: bool) -> u8 {
    if !left && dot < 8 { 0 } else { sprite_color(s) }
}

/// The first of the first `n` sprite units showing an opaque pixel, or
/// `n` when none does.
pub closed spec fn first_opaque(data: Seq<SpriteData>, dot: u32, left: bool, n: int) -> int
    decreases n,
{
    if n <= 0 {
        0
    } else {
        let f = first_opaque(data, dot, left, n - 1);
        if f < n - 1 {
            f
        } else if shown_color(data[n - 1], dot, left) != 0 {
            n - 1
        } else {
            n
        }
    }
}

proof fn lemma_first_opaque(data: Seq<SpriteData>, dot: u32, left: bool, n: int)
    requires
        0 <= n,
    ensures
        0 <= first_opaque(data, dot, left, n) <= n,
        first_opaque(data, dot, left, n) < n ==> shown_color(data[first_opaque(data, dot, left, n)], dot, left)
            != 0,
    decreases n,
{
    if n > 0 {
        lemma_first_opaque(data, dot, left, n - 1);
    }
}

/// The palette RAM address a pixel shows (and whether it is a sprite 0
/// hit) from the background entry `palette`, the sprite pick, the dot, the
/// mask register `regs1`, the mask in effect and the VRAM address.
pub open spec fn choose_address(palette: u16, pick: (u8, bool, bool), dot: u32, regs1: u8, mask: u8, vram: u16) -> (
    u16,
    bool,
) {
    let (sp, sz, behind) = pick;
    let bg = palette % 4 != 0 && (dot > 7 || regs1 & 0x02 != 0) && mask & 0x08 != 0;
    let sc = sp != 0;
    let pixel: u16 = if !bg && !sc {
        0x3f00
    } else if !bg {
        (0x3f10 + sp) as u16
    } else if !sc || behind {
        (0x3f00 + palette) as u16
    } else {
        (0x3f10 + sp) as u16
    };
    let a = if mask & 0x18 == 0 && vram / 0x100 % 0x40 == 0x3f { vram } else { pixel };
    (a, bg && sc && sz)
}

fn pixel_address(palette: u16, pick: (u8, bool, bool), dot: u32, regs1: u8, mask: u8, vram: u16) -> (r: (u16, bool))
    requires
        palette < 16,
        pick.0 < 32,
    ensures
        r == choose_address(palette, pick, dot, regs1, mask, vram),
{
    let (sp, sz, behind) = pick;
    let bg = palette % 4 != 0 && (dot > 7 || regs1 & 0x02 != 0) && mask & 0x08 != 0;
    let sc = sp != 0;
    let pixel: u16 = if !bg && !sc {
        0x3f00
    } else if !bg {
        0x3f10 + sp as u16
    } else if !sc || behind {
        0x3f00 + palette
    } else {
        0x3f10 + sp as u16
    };
    let a = if mask & 0x18 == 0 && vram / 0x100 % 0x40 == 0x3f { vram } else { pixel };
    (a, bg && sc && sz)
}

/// The pixel bits under the fine X offset lie in the high byte.
proof fn lemma_high_byte_bits(lo: u16, hi: u16, fx: u16)
    by (bit_vector)
    requires
        fx <= 7,
    ensures
        ((lo & 0xff00) >> ((15 - fx) as u16)) & 1 == (lo >> ((15 - fx) as u16)) & 1,
        ((hi & 0xff00) >> ((14 - fx) as u16)) & 2 == (hi >> ((14 - fx) as u16)) & 2,
{
}

/// Reloading the low byte of a shift register keeps its high byte.
proof fn lemma_reload_low(x: u16, y: u16)
    by (bit_vector)
    requires
        y < 256,
    ensures
        ((x & 0xff00) | y) & 0xff00 == x & 0xff00,
{
}

/// The drawn pixel depends only on the pixel inputs, the mask, the
/// registers, the palette, the VRAM address and the sprite line flags.
proof fn lemma_drawn_congruent(a: Ppu, b: Ppu, dot: u32)
    requires
        a.same_pixel_inputs(&b),
        a.regs == b.regs,
        a.ppu_mask == b.ppu_mask,
        a.palette_data == b.palette_data,
        a.region == b.region,
        a.vram_addr == b.vram_addr,
        a.sprite_any_on_line == b.sprite_any_on_line,
        a.sprite_zero_on_line == b.sprite_zero_on_line,
    ensures
        a.spec_drawn(dot) == b.spec_drawn(dot),
{
    assert(a.spec_bg_palette() == b.spec_bg_palette());
    assert(a.spec_sprite_pick(dot) == b.spec_sprite_pick(dot));
}

proof fn lemma_two_planes(lo: u16, hi: u16)
    by (bit_vector)
    ensures
        (lo & 1) | (hi & 2) <= 3,
        (lo & 1) | (hi & 2) == (lo & 1) + (hi & 2),
{
}

impl Ppu {
    /// The inputs of a pixel that the pipelines' fetches leave alone: the
    /// high bytes of the four shift registers, the fine X offset and the
    /// sprite units.
    /// What decides whether a sprite-evaluation step finds a ninth sprite
    /// agrees: the evaluation's progress, the byte on the sprite bus and
    /// the registers.
    pub closed spec fn same_eval_inputs(&self, other: &Ppu) -> bool {
        &&& self.sprite_read_loop == other.sprite_read_loop
        &&& self.sprite_reads == other.sprite_reads
        &&& self.found_sprites == other.found_sprites
        &&& self.next_sprite_byte == other.next_sprite_byte
        &&& self.regs == other.regs
    }

    /// A sprite-evaluation step on `scanline` meets a ninth sprite: the
    /// walk has not finished, no sprite is being copied, eight are already
    /// found and the Y byte on the sprite bus puts a sprite on the line.
    /// That step sets the sprite overflow flag.
    pub closed spec fn ninth_sprite_found(&self, scanline: u32) -> bool {
        &&& !self.sprite_read_loop
        &&& self.sprite_reads == 0
        &&& self.found_sprites == 8
        &&& self.spec_on_line(self.next_sprite_byte, scanline)
    }

    pub closed spec fn same_pixel_inputs(&self, other: &Ppu) -> bool {
        &&& self.low_bg_shift & 0xff00 == other.low_bg_shift & 0xff00
        &&& self.high_bg_shift & 0xff00 == other.high_bg_shift & 0xff00
        &&& self.low_attr_shift & 0xff00 == other.low_attr_shift & 0xff00
        &&& self.high_attr_shift & 0xff00 == other.high_attr_shift & 0xff00
        &&& self.vram_fine_x == other.vram_fine_x
        &&& self.sprite_data == other.sprite_data
    }

    /// The state a dot's pixel is drawn from, seen from the start of the
    /// pipelines' work: the shift registers, fine X, sprite units, mask,
    /// registers and palette as they were, with the sprite line flags and
    /// VRAM address `fin` ends with.
    pub closed spec fn pixel_source(&self, fin: &Ppu) -> Ppu {
        Ppu {
            sprite_any_on_line: fin.sprite_any_on_line,
            sprite_zero_on_line: fin.sprite_zero_on_line,
            vram_addr: fin.vram_addr,
            ppu_mask: fin.ppu_mask,
            ..*self
        }
    }

    /// The sprite pixel at this dot: palette entry (colour plus four times
    /// the palette bits), whether it comes from sprite 0 on a line where
    /// sprite 0 was found (and the dot is below 255), and whether it lies
    /// behind the background; nothing when sprites are off or none is on
    /// the line.
    pub closed spec fn spec_sprite_pick(&self, dot: u32) -> (u8, bool, bool) {
        let left = self.regs@[1] & 0x04 != 0;
        let f = first_opaque(self.sprite_data@, dot, left, 8);
        if self.spec_mask() & 0x10 != 0 && self.sprite_any_on_line && f < 8 {
            let s = self.sprite_data@[f];
            (
                (shown_color(s, dot, left) + (s.attributes % 4) * 4) as u8,
                f == 0 && self.sprite_zero_on_line && dot < 255,
                (s.attributes / 32) % 2 == 1,
            )
        } else {
            (0, false, false)
        }
    }

    /// The background palette entry (0 to 15; 0 is transparent) under the
    /// fine X offset of the shift registers.
    pub closed spec fn spec_bg_palette(&self) -> u16 {
        let fx = self.vram_fine_x;
        let c0 = ((self.low_bg_shift & 0xff00) >> (15 - fx) as u16) & 1;
        let c1 = ((self.high_bg_shift & 0xff00) >> (14 - fx) as u16) & 2;
        let a0 = ((self.low_attr_shift & 0xff00) >> (15 - fx) as u16) & 1;
        let a1 = ((self.high_attr_shift & 0xff00) >> (14 - fx) as u16) & 2;
        let color = (c0 + c1) as u16;
        if color == 0 { 0 } else { (color + (a0 + a1) * 4) as u16 }
    }

    /// The palette RAM address of the pixel at this dot (with the sprite
    /// 0 hit it causes): an opaque background (not hidden in the left
    /// columns, background on) and an opaque sprite pick by the sprite's
    /// priority bit; rendering off with the VRAM address in $3Fxx shows
    /// that entry.
    pub closed spec fn spec_pixel_address(&self, dot: u32) -> (u16, bool) {
        choose_address(
            self.spec_bg_palette(),
            self.spec_sprite_pick(dot),
            dot,
            self.regs@[1],
            self.spec_mask(),
            self.vram_addr,
        )
    }

    /// The screen entry drawn at this dot and whether it is a sprite 0 hit.
    pub closed spec fn spec_drawn(&self, dot: u32) -> (u16, bool) {
        let (a, hit) = self.spec_pixel_address(dot);
        (self.spec_palette_read(a) as u16 | self.spec_emph(), hit)
    }

    /// The step the schedule hands out next.
    pub closed spec fn next_step(&self) -> PpuStep {
        let steps = self.ppu_steps.spec_steps();
        let i = if self.ppu_steps.spec_index() >= steps.len() { 0 } else { self.ppu_steps.spec_index() as int };
        steps[i]
    }

    /// Shifts the active sprites one pixel and returns the first opaque
    /// sprite pixel (palette and colour), whether it is sprite 0 and
    /// whether it lies behind the background.
    fn sprite_pixel(&mut self, dot: u32) -> (r: (u8, bool, bool))
        requires
            old(self).wf(),
        ensures
            final(self).wf(),
            final(self).pipeline_frame(&*old(self)),
            final(self).vram_addr == old(self).vram_addr,
            final(self).sprite_zero_hit == old(self).sprite_zero_hit,
            final(self).sprite_overflow == old(self).sprite_overflow,
            final(self).screen == old(self).screen,
            r.0 < 32,
            old(self).spec_mask() & 0x10 == 0 ==> r.0 == 0,
            r == old(self).spec_sprite_pick(dot),
            final(self).sprite_any_on_line == old(self).sprite_any_on_line,
            final(self).sprite_zero_on_line == old(self).sprite_zero_on_line,
            final(self).oam_addr == old(self).oam_addr,
    {
        let mut sprite_zero = false;
        let mut sprite_pixel: u8 = 0;
        let mut behind_bg = false;
        let left_sprites = self.regs[1] & 0x04 != 0;
        let enabled = self.ppu_mask.value() & 0x10 != 0;
        if enabled && self.sprite_any_on_line {
            let mut idx: usize = 0;
            while idx < 8
                invariant
                    idx <= 8,
                    self.wf(),
                    self.pipeline_frame(&*old(self)),
                    self.vram_addr == old(self).vram_addr,
                    self.sprite_zero_hit == old(self).sprite_zero_hit,
                    self.sprite_overflow == old(self).sprite_overflow,
                    self.screen == old(self).screen,
                    sprite_pixel < 32,
                    enabled && self.sprite_any_on_line,
                    left_sprites == (self.regs@[1] & 0x04 != 0),
                    self.sprite_zero_on_line == old(self).sprite_zero_on_line,
                    self.sprite_any_on_line == old(self).sprite_any_on_line,
                    self.oam_addr == old(self).oam_addr,
                    forall|j: int| idx <= j < 8 ==> #[trigger] self.sprite_data@[j] == old(self).sprite_data@[j],
                    ({
                        let f = first_opaque(old(self).sprite_data@, dot, left_sprites, idx as int);
                        if f < idx {
                            let s = old(self).sprite_data@[f];
                            &&& sprite_pixel == (shown_color(s, dot, left_sprites) + (s.attributes % 4) * 4) as u8
                            &&& sprite_zero == (f == 0 && old(self).sprite_zero_on_line && dot < 255)
                            &&& behind_bg == ((s.attributes / 32) % 2 == 1)
                        } else {
                            sprite_pixel == 0 && !sprite_zero && !behind_bg
                        }
                    }),
                decreases 8 - idx,
            {
                proof {
                    lemma_first_opaque(old(self).sprite_data@, dot, left_sprites, idx as int);
                    lemma_first_opaque(old(self).sprite_data@, dot, left_sprites, idx as int + 1);
                }
                let mut sprite = self.sprite_data[idx];
                if sprite.x == 0 {
                    sprite.active = 1;
                }
                if sprite.active > 0 && sprite.active <= 8 {
                    let attr = sprite.attributes;
                    let high = sprite.pattern_high;
                    let low = sprite.pattern_low;
                    let flip_horz = (attr / 64) % 2 == 1;
                    let pal = (attr % 4) * 4;
                    let high_set = if flip_horz { high % 2 == 1 } else { high >= 0x80 };
                    let low_set = if flip_horz { low % 2 == 1 } else { low >= 0x80 };
                    let mut color: u8 = (if high_set { 2 } else { 0 }) + (if low_set { 1 } else { 0 });
                    if !left_sprites && dot < 8 {
                        color = 0;
                    }
                    if color != 0 && sprite_pixel == 0 {
                        sprite_zero = idx == 0 && self.sprite_zero_on_line && dot < 255;
                        sprite_pixel = color + pal;
                        behind_bg = (attr / 32) % 2 == 1;
                    }
                    sprite.active = sprite.active + 1;
                    if flip_horz {
                        sprite.pattern_high = sprite.pattern_high / 2;
                        sprite.pattern_low = sprite.pattern_low / 2;
                    } else {
                        sprite.pattern_high = sprite.pattern_high << 1;
                        sprite.pattern_low = sprite.pattern_low << 1;
                    }
                }
                if sprite.active == 0 && sprite.x != 0 {
                    sprite.x = sprite.x - 1;
                }
                self.sprite_data[idx] = sprite;
                idx += 1;
            }
        }
        (sprite_pixel, sprite_zero, behind_bg)
    }

    /// Draws one pixel: the background pixel from the shift registers at
    /// the fine X offset, the first opaque sprite pixel in front of or
    /// behind it (an opaque sprite 0 over an opaque background is a hit),
    /// the left 8 columns masked as asked, or with rendering off a palette
    /// entry the VRAM address points at; looked up in palette RAM
    /// (grayscale keeps the column), with the emphasis bits above.
    #[verifier::spinoff_prover]
    #[verifier::rlimit(50)]
    fn render(&mut self, dot: u32, scanline: u32)
        requires
            old(self).wf(),
            dot < 256,
            scanline < 240,
        ensures
            final(self).oam_addr == old(self).oam_addr,
            final(self).wf(),
            final(self).pipeline_frame_but_screen(&*old(self)),
            final(self).vram_addr == old(self).vram_addr,
            old(self).sprite_zero_hit ==> final(self).sprite_zero_hit,
            final(self).sprite_overflow == old(self).sprite_overflow,
            final(self).screen@ == old(self).screen@.update(
                scanline * 256 + dot,
                final(self).screen@[scanline * 256 + dot],
            ),
            !old(self).spec_rendering() ==> final(self).screen@[scanline * 256 + dot] == old(
                self,
            ).spec_idle_pixel(),
            !old(self).spec_rendering() ==> final(self).sprite_zero_hit == old(self).sprite_zero_hit,
            final(self).screen@[scanline * 256 + dot] == old(self).spec_drawn(dot).0,
            final(self).sprite_any_on_line == old(self).sprite_any_on_line,
            final(self).sprite_zero_on_line == old(self).sprite_zero_on_line,
            final(self).ppu_mask == old(self).ppu_mask,
            final(self).sprite_zero_hit == (old(self).sprite_zero_hit || old(self).spec_drawn(dot).1),
    {
        let fine_x = self.vram_fine_x;
        let c0 = (self.low_bg_shift >> (15 - fine_x)) & 1;
        let c1 = (self.high_bg_shift >> (14 - fine_x)) & 2;
        let a0 = (self.low_attr_shift >> (15 - fine_x)) & 1;
        let a1 = (self.high_attr_shift >> (14 - fine_x)) & 2;
        proof {
            lemma_two_planes(self.low_bg_shift >> (15 - fine_x), self.high_bg_shift >> (14 - fine_x));
            lemma_two_planes(self.low_attr_shift >> (15 - fine_x), self.high_attr_shift >> (14 - fine_x));
            lemma_high_byte_bits(self.low_bg_shift, self.high_bg_shift, fine_x);
            lemma_high_byte_bits(self.low_attr_shift, self.high_attr_shift, fine_x);
        }
        let color = c0 + c1;
        let attr = if color == 0 { 0 } else { (a0 + a1) * 4 };
        let palette = color + attr;
        assert(palette == old(self).spec_bg_palette() && palette % 4 == color);

        let pick = self.sprite_pixel(dot);
        let (addr, hit) = pixel_address(palette, pick, dot, self.regs[1], self.ppu_mask.value(), self.vram_addr);
        proof {
            let m = old(self).spec_mask();
            assert(m & 0x18 == 0 ==> m & 0x08 == 0 && m & 0x10 == 0) by (bit_vector);
            assert((m & 0x18 == 0) == !old(self).spec_rendering());
        }
        if hit {
            self.sprite_zero_hit = true;
        }
        let pixel_result = self.palette_read(addr);
        let emph = self.emph_bits();
        let at = (scanline * 256 + dot) as usize;
        self.screen.set(at, pixel_result as u16 | emph);

        self.low_attr_shift = self.low_attr_shift << 1;
        self.high_attr_shift = self.high_attr_shift << 1;
        self.low_bg_shift = self.low_bg_shift << 1;
        self.high_bg_shift = self.high_bg_shift << 1;
    }
}

} // verus!

verus! {

impl Ppu {
    /// The background pipeline's work for one dot while rendering.
    fn background_step(&mut self, step: Option<BackgroundStep>)
        requires
            old(self).wf(),
        ensures
            final(self).wf(),
            final(self).pipeline_frame(&*old(self)),
            final(self).sprite_zero_hit == old(self).sprite_zero_hit,
            final(self).sprite_overflow == old(self).sprite_overflow,
            final(self).vram_addr == scroll_stepped(old(self).vram_addr, old(self).vram_addr_temp, step),
            step != Some(BackgroundStep::ShiftedHorzIncrement) ==> final(self).same_pixel_inputs(&*old(self)),
            final(self).same_eval_inputs(&*old(self)),
    {
        match step {
            Some(BackgroundStep::VertReset) => self.vert_reset(),
            Some(BackgroundStep::HorzReset) => self.horz_reset(),
            Some(BackgroundStep::VertIncrement) => {
                self.horz_increment();
                self.vert_increment();
            },
            Some(BackgroundStep::HorzIncrement) => {
                self.load_bg_shifters();
                self.horz_increment();
            },
            Some(BackgroundStep::ShiftedHorzIncrement) => {
                self.low_bg_shift = self.low_bg_shift << 8;
                self.high_bg_shift = self.high_bg_shift << 8;
                self.low_attr_shift = self.low_attr_shift << 8;
                self.high_attr_shift = self.high_attr_shift << 8;
                self.load_bg_shifters();
                self.horz_increment();
            },
            Some(BackgroundStep::Nametable) => self.fetch_nametable(),
            Some(BackgroundStep::Attribute) => self.fetch_attribute(),
            Some(BackgroundStep::LowPattern) => self.fetch_low_bg_pattern(),
            Some(BackgroundStep::HighPattern) => self.fetch_high_bg_pattern(),
            None => {},
        }
    }

    /// The sprite pipeline's work for one dot while rendering.
    #[verifier::spinoff_prover]
    #[verifier::rlimit(100)]
    fn sprite_step(&mut self, step: PpuStep)
        requires
            old(self).wf(),
            step.sprite matches Some(SpriteStep::Clear) ==> step.dot < 64,
        ensures
            final(self).wf(),
            final(self).pipeline_frame(&*old(self)),
            final(self).sprite_zero_hit == old(self).sprite_zero_hit,
            old(self).sprite_overflow ==> final(self).sprite_overflow,
            !(step.sprite matches Some(SpriteStep::Eval) || step.sprite matches Some(SpriteStep::Hblank))
                ==> final(self).sprite_overflow == old(self).sprite_overflow,
            (step.sprite matches Some(SpriteStep::Eval) || step.sprite matches Some(SpriteStep::Hblank))
                ==> final(self).sprite_overflow == (old(self).sprite_overflow || old(self).ninth_sprite_found(
                step.scanline,
            )),
            step.sprite matches Some(SpriteStep::Fetch(_)) ==> final(self).oam_addr == 0,
            final(self).vram_addr == old(self).vram_addr,
            !(step.sprite matches Some(SpriteStep::Fetch(_))) ==> final(self).same_pixel_inputs(&*old(self)),
    {
        match step.sprite {
            Some(SpriteStep::Clear) => self.init_line_oam(step.dot / 2),
            Some(SpriteStep::Eval) => self.sprite_eval(step.scanline, step.dot),
            Some(SpriteStep::Read) => self.sprite_read(),
            Some(SpriteStep::Hblank) => {
                self.sprite_eval(step.scanline, step.dot);
                self.sprite_any_on_line = false;
            },
            Some(SpriteStep::Fetch(n)) => {
                self.oam_addr = 0;
                if n == 1 {
                    self.fetch_nametable();
                } else if n == 3 {
                    self.fetch_attribute();
                } else if n == 5 {
                    self.sprite_fetch(step.scanline, false);
                } else if n == 7 {
                    self.sprite_fetch(step.scanline, true);
                }
                let offset: u8 = if n < 3 { n } else { 3 };
                self.sprite_oam_read(offset);
            },
            Some(SpriteStep::BackgroundWait) => {
                self.next_sprite_byte = self.line_oam_data[0];
            },
            _ => {},
        }
    }

    /// The dot's step from the schedule and its frame-level effects: on
    /// odd frames with rendering on the pre-render line's last dot is
    /// skipped; a dot matching `frame_end` counts a frame; vertical blank
    /// starts (unless the status was read in the same dot) and ends with
    /// the sprite flags.
    #[verifier::spinoff_prover]
    #[verifier::rlimit(100)]
    fn next_dot<U: RunUntil>(&mut self, frame_end: FrameEnd, until: &mut U) -> (r: PpuStep)
        requires
            old(self).wf(),
        ensures
            *final(until) == until_after_dot(
                *old(until),
                old(self).frames_ended(frame_end, old(self).spec_rendering()),
                r.dot == 0,
            ),
            final(self).same_pixel_inputs(&*old(self)),
            final(self).same_eval_inputs(&*old(self)),
            final(self).wf(),
            final(self).pipeline_frame_but_flags(&*old(self)),
            final(self).vram_addr == old(self).vram_addr,
            r.sprite matches Some(SpriteStep::Clear) ==> r.dot < 64,
            r.dot <= 340,
            old(self).next_step().state == Some(StateChange::SetVblank) ==> final(self).vblank == (
            old(self).last_status_read != old(self).current_tick) && r.scanline == vblank_of(old(self).region) + 1
                && r.dot == 1,
            old(self).next_step().state == Some(StateChange::ClearVblank) ==> !final(self).vblank
                && !final(self).sprite_zero_hit && !final(self).sprite_overflow && r.scanline == prerender_of(
                old(self).region,
            ) && r.dot == 1 && r.sprite == Some(SpriteStep::Clear),
            old(self).next_step().state != Some(StateChange::ClearVblank) ==> final(self).sprite_zero_hit
                == old(self).sprite_zero_hit && final(self).sprite_overflow == old(self).sprite_overflow,
            old(self).next_step().state != Some(StateChange::SetVblank) && old(self).next_step().state != Some(
                StateChange::ClearVblank,
            ) ==> final(self).vblank == old(self).vblank,
            final(self).frame == old(self).frame_counted(frame_end, old(self).spec_rendering()),
            final(self).screen@ == old(self).screen@,
            final(self).vram_addr_temp == old(self).vram_addr_temp,
            r.dot < 256 ==> r.background != Some(BackgroundStep::ShiftedHorzIncrement) && !(r.sprite matches Some(
                SpriteStep::Fetch(_),
            )),
    {
        proof {
            reveal(steps_ok);
            reveal_with_fuel(counted_times, 3);
        }
        let mut step = self.ppu_steps.step();
        proof {
            let i = if old(self).ppu_steps.spec_index() >= old(self).ppu_steps.spec_steps().len() {
                0
            } else {
                old(self).ppu_steps.spec_index() as int
            };
            assert(step == step_at(self.region, i));
            lemma_step_facts(self.region, i);
        }
        if frame_end == FrameEnd::Dot(step.scanline, step.dot) {
            until.add_frame();
            self.frame = self.frame.wrapping_add(1);
        }
        match step.state {
            Some(StateChange::SkippedTick) => {
                if self.frame % 2 == 1 && self.is_rendering() {
                    let skipped = self.ppu_steps.step();
                    proof {
                        assert(skipped == step_at(self.region, 0));
                        lemma_step_facts(self.region, 0);
                    }
                    step.scanline = 0;
                    step.dot = 0;
                    if frame_end == FrameEnd::Dot(step.scanline, step.dot) {
                        self.frame = self.frame.wrapping_add(1);
                        until.add_frame();
                    }
                    step.sprite = skipped.sprite;
                }
            },
            Some(StateChange::SetVblank) => {
                self.vblank = self.last_status_read != self.current_tick;
                if frame_end == FrameEnd::SetVblank {
                    self.frame = self.frame.wrapping_add(1);
                    until.add_frame();
                }
            },
            Some(StateChange::ClearVblank) => {
                self.sprite_zero_hit = false;
                self.sprite_overflow = false;
                self.vblank = false;
                if frame_end == FrameEnd::ClearVblank {
                    self.frame = self.frame.wrapping_add(1);
                    until.add_frame();
                }
            },
            None => {},
        }
        if step.dot == 0 {
            until.add_scanline();
        }
        step
    }

    /// The frame counter after the next dot: one more when the dot is the
    /// one `frame_end` names (on odd frames with `rendering` on, the skipped
    /// pre-render dot hands over to dot 0 of line 0, which may count
    /// again), or when it sets or clears vertical blank and frames end
    /// there.
    pub closed spec fn frame_counted(&self, frame_end: FrameEnd, rendering: bool) -> u32 {
        let st = self.next_step();
        let f1 = if frame_end == FrameEnd::Dot(st.scanline, st.dot) {
            self.frame.wrapping_add(1)
        } else {
            self.frame
        };
        let f2 = if st.state == Some(StateChange::SkippedTick) && f1 % 2 == 1 && rendering && frame_end
            == FrameEnd::Dot(0, 0) {
            f1.wrapping_add(1)
        } else {
            f1
        };
        if (st.state == Some(StateChange::SetVblank) && frame_end == FrameEnd::SetVblank) || (st.state == Some(
            StateChange::ClearVblank,
        ) && frame_end == FrameEnd::ClearVblank) {
            f2.wrapping_add(1)
        } else {
            f2
        }
    }

    /// How many frames end with the next dot (0 to 2), by the rules of
    /// `frame_counted`.
    pub closed spec fn frames_ended(&self, frame_end: FrameEnd, rendering: bool) -> nat {
        let st = self.next_step();
        let n1: nat = if frame_end == FrameEnd::Dot(st.scanline, st.dot) { 1 } else { 0 };
        let f1 = if n1 == 1 { self.frame.wrapping_add(1) } else { self.frame };
        let n2: nat = if st.state == Some(StateChange::SkippedTick) && f1 % 2 == 1 && rendering && frame_end
            == FrameEnd::Dot(0, 0) {
            1
        } else {
            0
        };
        let n3: nat = if (st.state == Some(StateChange::SetVblank) && frame_end == FrameEnd::SetVblank) || (
        st.state == Some(StateChange::ClearVblank) && frame_end == FrameEnd::ClearVblank) {
            1
        } else {
            0
        };
        n1 + n2 + n3
    }

    /// The fields `next_dot` leaves alone.
    pub closed spec fn pipeline_frame_but_flags(&self, other: &Ppu) -> bool {
        &&& self.region == other.region
        &&& self.regs == other.regs
        &&& self.palette_data == other.palette_data
        &&& self.oam_data == other.oam_data
        &&& self.current_tick == other.current_tick
        &&& self.last_status_read == other.last_status_read
        &&& self.last_data_write == other.last_data_write
        &&& self.reset_delay == other.reset_delay
        &&& self.ppu_mask == other.ppu_mask
    }

    /// One PPU dot: the step's frame-level effects (see `next_dot`); while
    /// rendering the background and sprite pipelines run; outside
    /// rendering the VRAM address is put on the board's bus on odd dots;
    /// visible dots are drawn.
    #[verifier::spinoff_prover]
    #[verifier::rlimit(60)]
    pub fn tick<U: RunUntil>(&mut self, frame_end: FrameEnd, until: &mut U)
        requires
            old(self).wf(),
            old(self).spec_tick() < u64::MAX,
        ensures
            final(self).wf(),
            final(self).spec_tick() == old(self).spec_tick() + 1,
            *final(until) == until_after_dot(
                old(until).counted(RunEvent::Dot),
                old(self).frames_ended(frame_end, final(self).spec_rendering()),
                final(self).spec_step().dot == 0,
            ),
            final(self).spec_reset_delay() == if old(self).spec_reset_delay() != 0 {
                (old(self).spec_reset_delay() - 1) as u32
            } else {
                0
            },
            final(self).spec_regs() == old(self).spec_regs(),
            final(self).spec_palette() == old(self).spec_palette(),
            final(self).spec_oam() == old(self).spec_oam(),
            old(self).next_step().state == Some(StateChange::SetVblank) ==> final(self).spec_vblank() == (old(
                self,
            ).spec_last_status_read() != old(self).spec_tick()),
            old(self).next_step().state == Some(StateChange::ClearVblank) ==> !final(self).spec_vblank()
                && !final(self).spec_sprite_zero_hit() && !final(self).spec_sprite_overflow(),
            old(self).next_step().state != Some(StateChange::SetVblank) && old(self).next_step().state != Some(
                StateChange::ClearVblank,
            ) ==> final(self).spec_vblank() == old(self).spec_vblank(),
            final(self).spec_frame() == old(self).frame_counted(frame_end, final(self).spec_rendering()),
            forall|i: int|
                0 <= i < 256 * 240 && i != final(self).spec_step().scanline * 256 + final(self).spec_step().dot
                    ==> #[trigger] final(self).spec_screen()[i] == old(self).spec_screen()[i],
            ({
                let st = final(self).spec_step();
                !final(self).spec_rendering() && st.scanline < vblank_of(final(self).spec_region()) && st.dot < 256
                    ==> final(self).spec_screen()[st.scanline * 256 + st.dot] == final(self).spec_idle_pixel()
            }),
            !final(self).spec_rendering() ==> final(self).spec_vram_addr() == old(self).spec_vram_addr(),
            !final(self).spec_rendering() && old(self).next_step().state != Some(StateChange::ClearVblank)
                ==> final(self).spec_sprite_zero_hit() == old(self).spec_sprite_zero_hit(),
            old(self).next_step().state != Some(StateChange::ClearVblank) && old(self).spec_sprite_overflow()
                ==> final(self).spec_sprite_overflow(),
            ({
                let sp = final(self).spec_step().sprite;
                old(self).next_step().state != Some(StateChange::ClearVblank) && !(sp matches Some(
                    SpriteStep::Eval,
                ) || sp matches Some(SpriteStep::Hblank)) ==> final(self).spec_sprite_overflow() == old(
                    self,
                ).spec_sprite_overflow()
            }),
            ({
                let st = final(self).spec_step();
                final(self).spec_rendering() && (st.sprite matches Some(SpriteStep::Eval) || st.sprite matches Some(
                    SpriteStep::Hblank,
                )) ==> final(self).spec_sprite_overflow() == (old(self).spec_sprite_overflow()
                    || old(self).ninth_sprite_found(st.scanline))
            }),
            final(self).spec_rendering() && (final(self).spec_step().sprite matches Some(SpriteStep::Fetch(_)))
                ==> final(self).spec_oam_addr() == 0,
            ({
                let st = final(self).spec_step();
                let d = old(self).pixel_source(&*final(self)).spec_drawn(st.dot);
                st.scanline < vblank_of(final(self).spec_region()) && st.dot < 256 ==> {
                    &&& final(self).spec_screen()[st.scanline * 256 + st.dot] == d.0
                    &&& final(self).spec_sprite_zero_hit() == (old(self).spec_sprite_zero_hit() || d.1)
                }
            }),
            final(self).spec_rendering() ==> final(self).spec_vram_addr() == scroll_stepped(
                old(self).spec_vram_addr(),
                old(self).spec_vram_addr_temp(),
                final(self).spec_step().background,
            ),
    {
        if self.reset_delay != 0 {
            self.reset_delay = self.reset_delay - 1;
        }
        until.add_dot();
        self.ppu_mask.tick();
        self.open_bus.tick();
        let ghost before = *self;
        assert(before.next_step() == old(self).next_step());
        let step = self.next_dot(frame_end, until);
        self.current_tick = self.current_tick + 1;
        let ghost mid = *self;
        self.run_pipelines(step);
        proof {
            if old(self).next_step().state == Some(StateChange::ClearVblank) {
                assert(step.scanline == prerender_of(self.region));
            }
            lemma_drawn_congruent(mid.pixel_source(&*self), old(self).pixel_source(&*self), step.dot);
        }
        self.step = step;
    }

    /// The pipelines' work for a dot before its pixel is drawn.
    #[verifier::spinoff_prover]
    #[verifier::rlimit(60)]
    fn pipeline_steps(&mut self, step: PpuStep)
        requires
            old(self).wf(),
            step.sprite matches Some(SpriteStep::Clear) ==> step.dot < 64,
        ensures
            final(self).wf(),
            final(self).pipeline_frame(&*old(self)),
            final(self).sprite_zero_hit == old(self).sprite_zero_hit,
            !old(self).spec_rendering() ==> final(self).vram_addr == old(self).vram_addr,
            old(self).spec_rendering() ==> final(self).vram_addr == scroll_stepped(
                old(self).vram_addr,
                old(self).vram_addr_temp,
                step.background,
            ),
            (step.scanline == prerender_of(old(self).region) && step.sprite == Some(SpriteStep::Clear))
                ==> final(self).sprite_overflow == old(self).sprite_overflow,
            !(step.sprite matches Some(SpriteStep::Eval) || step.sprite matches Some(SpriteStep::Hblank))
                ==> final(self).sprite_overflow == old(self).sprite_overflow,
            old(self).sprite_overflow ==> final(self).sprite_overflow,
            !old(self).spec_rendering() ==> final(self).sprite_overflow == old(self).sprite_overflow,
            old(self).spec_rendering() && (step.sprite matches Some(SpriteStep::Fetch(_)))
                ==> final(self).oam_addr == 0,
            old(self).spec_rendering() && (step.sprite matches Some(SpriteStep::Eval) || step.sprite matches Some(
                SpriteStep::Hblank,
            )) ==> final(self).sprite_overflow == (old(self).sprite_overflow || old(self).ninth_sprite_found(
                step.scanline,
            )),
            step.background != Some(BackgroundStep::ShiftedHorzIncrement) && !(step.sprite matches Some(
                SpriteStep::Fetch(_),
            )) ==> final(self).same_pixel_inputs(&*old(self)),
    {
        if step.sprite == Some(SpriteStep::Reset) {
            self.sprite_reset();
        }
        if self.is_rendering() {
            self.background_step(step.background);
            self.sprite_step(step);
        }
        if !self.is_rendering() || self.in_vblank() {
            if step.dot % 2 == 1 {
                let a = self.vram_addr % 0x4000;
                proof {
                    lemma_ppu_bus(&self.mapper, a);
                }
                self.mapper.ppu_fetch(a, PpuFetchKind::Idle);
            }
        }
    }

    /// The pipelines' work for a dot: the sprite unit's line reset (even
    /// with rendering off), the background and sprite steps while
    /// rendering, the idle bus access outside rendering and the pixel.
    #[verifier::spinoff_prover]
    #[verifier::rlimit(100)]
    fn run_pipelines(&mut self, step: PpuStep)
        requires
            old(self).wf(),
            step.sprite matches Some(SpriteStep::Clear) ==> step.dot < 64,
        ensures
            final(self).wf(),
            final(self).pipeline_frame_but_flags(&*old(self)),
            final(self).vblank == old(self).vblank,
            final(self).frame == old(self).frame,
            forall|i: int|
                0 <= i < 256 * 240 && i != step.scanline * 256 + step.dot ==> #[trigger] final(self).screen@[i]
                    == old(self).screen@[i],
            !final(self).spec_rendering() && step.scanline < vblank_of(final(self).region) && step.dot < 256
                ==> final(self).screen@[step.scanline * 256 + step.dot] == final(self).spec_idle_pixel(),
            !old(self).spec_rendering() ==> final(self).vram_addr == old(self).vram_addr,
            !old(self).spec_rendering() ==> final(self).sprite_zero_hit == old(self).sprite_zero_hit,
            old(self).spec_rendering() ==> final(self).vram_addr == scroll_stepped(
                old(self).vram_addr,
                old(self).vram_addr_temp,
                step.background,
            ),
            (step.scanline == prerender_of(old(self).region) && step.sprite == Some(SpriteStep::Clear))
                ==> final(self).sprite_zero_hit == old(self).sprite_zero_hit
                && final(self).sprite_overflow == old(self).sprite_overflow,
            !(step.sprite matches Some(SpriteStep::Eval) || step.sprite matches Some(SpriteStep::Hblank))
                ==> final(self).sprite_overflow == old(self).sprite_overflow,
            old(self).sprite_overflow ==> final(self).sprite_overflow,
            old(self).spec_rendering() && (step.sprite matches Some(SpriteStep::Eval) || step.sprite matches Some(
                SpriteStep::Hblank,
            )) ==> final(self).sprite_overflow == (old(self).sprite_overflow || old(self).ninth_sprite_found(
                step.scanline,
            )),
            old(self).spec_rendering() && (step.sprite matches Some(SpriteStep::Fetch(_)))
                ==> final(self).oam_addr == 0,
            step.scanline < vblank_of(old(self).region) && step.dot < 256 && step.background != Some(
                BackgroundStep::ShiftedHorzIncrement,
            ) && !(step.sprite matches Some(SpriteStep::Fetch(_))) ==> {
                let d = old(self).pixel_source(&*final(self)).spec_drawn(step.dot);
                &&& final(self).screen@[step.scanline * 256 + step.dot] == d.0
                &&& final(self).sprite_zero_hit == (old(self).sprite_zero_hit || d.1)
            },
    {
        self.pipeline_steps(step);
        if step.scanline < self.region.vblank_line() && step.dot < 256 {
            let ghost m = *self;
            self.render(step.dot, step.scanline);
            proof {
                if step.background != Some(BackgroundStep::ShiftedHorzIncrement) && !(step.sprite matches Some(
                    SpriteStep::Fetch(_),
                )) {
                    lemma_drawn_congruent(m, old(self).pixel_source(&*self), step.dot);
                }
            }
        }
    }
}

/// The stop condition after the events of a dot: `frames` frames ending,
/// then a new line when the dot is the first of one.
pub open spec fn until_after_dot<U: RunUntil>(u: U, frames: nat, new_line: bool) -> U {
    let u1 = counted_times(u, RunEvent::Frame, frames);
    if new_line { u1.counted(RunEvent::Scanline) } else { u1 }
}

} // verus!
