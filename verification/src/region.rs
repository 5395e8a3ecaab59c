//! Television standard timing: scanline counts, frame-sequencer steps and
//! the period tables of the noise and DMC channels.
use vstd::prelude::*;

verus! {

#[derive(Debug, Copy, Clone, PartialEq, Eq, Structural)]
pub enum Region {
    Ntsc,
    Pal,
}

#[derive(Debug, Copy, Clone, PartialEq, Eq, Structural)]
pub enum EmphMode {
    Bgr,
    Brg,
}

pub const FIVE_STEP_SEQ_NTSC: [u32; 5] = [7457, 14913, 22371, 37281, 37282];
pub const FIVE_STEP_SEQ_PAL: [u32; 5] = [8313, 16627, 24939, 41565, 41566];

pub const FOUR_STEP_SEQ_NTSC: [u32; 5] = [7457, 14913, 22371, 29829, 29830];
pub const FOUR_STEP_SEQ_PAL: [u32; 5] = [8313, 16627, 24939, 33253, 33254];

pub const NOISE_RATES_NTSC: [u16; 16] = [
    4, 8, 16, 32, 64, 96, 128, 160, 202, 254, 380, 508, 762, 1016, 2034, 4068,
];
pub const NOISE_RATES_PAL: [u16; 16] = [
    4, 8, 14, 30, 60, 88, 118, 148, 188, 236, 354, 472, 708, 944, 1890, 3778,
];

pub const DMC_RATES_NTSC: [u16; 16] = [
    428, 380, 340, 320, 286, 254, 226, 214, 190, 160, 142, 128, 106, 84, 72, 54,
];
pub const DMC_RATES_PAL: [u16; 16] = [
    398, 354, 316, 298, 276, 236, 210, 198, 176, 148, 132, 118, 98, 78, 66, 50,
];

impl Default for Region {
    /// NTSC.
    fn default() -> (r: Region)
        ensures
            r == Region::Ntsc,
    {
        Region::Ntsc
    }
}

impl Region {
    pub open spec fn spec_noise_rates(&self) -> Seq<u16> {
        match self {
            Region::Ntsc => NOISE_RATES_NTSC@,
            Region::Pal => NOISE_RATES_PAL@,
        }
    }

    pub open spec fn spec_dmc_rates(&self) -> Seq<u16> {
        match self {
            Region::Ntsc => DMC_RATES_NTSC@,
            Region::Pal => DMC_RATES_PAL@,
        }
    }

    /// The first scanline of vertical blank.
    pub fn vblank_line(&self) -> (r: u32)
        ensures
            r == match self {
                Region::Ntsc => 240u32,
                Region::Pal => 239u32,
            },
    {
        match self {
            Region::Ntsc => 240,
            Region::Pal => 239,
        }
    }

    /// The last scanline of a frame.
    pub fn prerender_line(&self) -> (r: u32)
        ensures
            r == match self {
                Region::Ntsc => 261u32,
                Region::Pal => 311u32,
            },
    {
        match self {
            Region::Ntsc => 261,
            Region::Pal => 311,
        }
    }

    /// Whether odd frames skip a dot when rendering.
    pub fn uneven_frames(&self) -> (r: bool)
        ensures
            r == (*self == Region::Ntsc),
    {
        match self {
            Region::Ntsc => true,
            Region::Pal => false,
        }
    }

    /// The order of the color emphasis bits.
    pub fn emph_bits(&self) -> (r: EmphMode)
        ensures
            r == match self {
                Region::Ntsc => EmphMode::Bgr,
                Region::Pal => EmphMode::Brg,
            },
    {
        match self {
            Region::Ntsc => EmphMode::Bgr,
            Region::Pal => EmphMode::Brg,
        }
    }

    pub fn extra_ppu_tick(&self) -> (r: bool)
        ensures
            r == (*self == Region::Pal),
    {
        match self {
            Region::Ntsc => false,
            Region::Pal => true,
        }
    }

    /// CPU cycles at which the five-step frame sequencer fires.
    pub fn five_step_seq(&self) -> (r: [u32; 5])
        ensures
            r@ == match self {
                Region::Ntsc => FIVE_STEP_SEQ_NTSC@,
                Region::Pal => FIVE_STEP_SEQ_PAL@,
            },
    {
        match self {
            Region::Ntsc => FIVE_STEP_SEQ_NTSC,
            Region::Pal => FIVE_STEP_SEQ_PAL,
        }
    }

    /// CPU cycles at which the four-step frame sequencer fires.
    pub fn four_step_seq(&self) -> (r: [u32; 5])
        ensures
            r@ == match self {
                Region::Ntsc => FOUR_STEP_SEQ_NTSC@,
                Region::Pal => FOUR_STEP_SEQ_PAL@,
            },
    {
        match self {
            Region::Ntsc => FOUR_STEP_SEQ_NTSC,
            Region::Pal => FOUR_STEP_SEQ_PAL,
        }
    }

    pub fn noise_rates(&self) -> (r: [u16; 16])
        ensures
            r@ == self.spec_noise_rates(),
    {
        match self {
            Region::Ntsc => NOISE_RATES_NTSC,
            Region::Pal => NOISE_RATES_PAL,
        }
    }

    pub fn dmc_rates(&self) -> (r: [u16; 16])
        ensures
            r@ == self.spec_dmc_rates(),
    {
        match self {
            Region::Ntsc => DMC_RATES_NTSC,
            Region::Pal => DMC_RATES_PAL,
        }
    }

    pub fn dma_halt_on_read(&self) -> (r: bool)
        ensures
            r == (*self == Region::Ntsc),
    {
        match self {
            Region::Ntsc => true,
            Region::Pal => false,
        }
    }
}

/// Every noise period is at least 4 and every DMC period at least 50, so
/// the channels' reload values `period - 1` never underflow.
pub proof fn lemma_rates_positive(region: Region, i: int)
    requires
        0 <= i < 16,
    ensures
        region.spec_noise_rates()[i] >= 4,
        region.spec_dmc_rates()[i] >= 50,
{
    assert(NOISE_RATES_NTSC@ =~= seq![4u16, 8, 16, 32, 64, 96, 128, 160, 202, 254, 380, 508, 762, 1016, 2034, 4068]);
    assert(NOISE_RATES_PAL@ =~= seq![4u16, 8, 14, 30, 60, 88, 118, 148, 188, 236, 354, 472, 708, 944, 1890, 3778]);
    assert(DMC_RATES_NTSC@ =~= seq![428u16, 380, 340, 320, 286, 254, 226, 214, 190, 160, 142, 128, 106, 84, 72, 54]);
    assert(DMC_RATES_PAL@ =~= seq![398u16, 354, 316, 298, 276, 236, 210, 198, 176, 148, 132, 118, 98, 78, 66, 50]);
}

} // verus!
