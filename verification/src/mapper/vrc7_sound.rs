//! The VRC7's FM sound: six two-operator channels (a modulator feeding a
//! carrier), fifteen built-in instrument patches and one custom patch,
//! shared amplitude and frequency vibrato units, and log-sine / exponent
//! lookup tables.
use vstd::prelude::*;

use vstd::arithmetic::power2::pow2;

verus! {

/// The envelope's full attenuation, in its 23-bit fixed point.
pub const MAX_DB: u32 = 8388607;

/// One 48th of the full attenuation.
pub const ONE_DB: u32 = 174762;

/// -log2(sin((n + 0.5) * pi / 512)) * 256, rounded: the quarter-sine
/// wave in the log domain.
pub const LOG_SIN_TABLE: [u16; 256] = [
    2137, 1731, 1543, 1419, 1326, 1252, 1190, 1137, 1091, 1050, 1013, 979, 949, 920, 894, 869,
    846, 825, 804, 785, 767, 749, 732, 717, 701, 687, 672, 659, 646, 633, 621, 609, 598, 587,
    576, 566, 556, 546, 536, 527, 518, 509, 501, 492, 484, 476, 468, 461, 453, 446, 439, 432,
    425, 418, 411, 405, 399, 392, 386, 380, 375, 369, 363, 358, 352, 347, 341, 336, 331, 326,
    321, 316, 311, 307, 302, 297, 293, 289, 284, 280, 276, 271, 267, 263, 259, 255, 251, 248,
    244, 240, 236, 233, 229, 226, 222, 219, 215, 212, 209, 205, 202, 199, 196, 193, 190, 187,
    184, 181, 178, 175, 172, 169, 167, 164, 161, 159, 156, 153, 151, 148, 146, 143, 141, 138,
    136, 134, 131, 129, 127, 125, 122, 120, 118, 116, 114, 112, 110, 108, 106, 104, 102, 100,
    98, 96, 94, 92, 91, 89, 87, 85, 83, 82, 80, 78, 77, 75, 74, 72, 70, 69, 67, 66, 64, 63, 62,
    60, 59, 57, 56, 55, 53, 52, 51, 49, 48, 47, 46, 45, 43, 42, 41, 40, 39, 38, 37, 36, 35, 34,
    33, 32, 31, 30, 29, 28, 27, 26, 25, 24, 23, 23, 22, 21, 20, 20, 19, 18, 17, 17, 16, 15, 15,
    14, 13, 13, 12, 12, 11, 10, 10, 9, 9, 8, 8, 7, 7, 7, 6, 6, 5, 5, 5, 4, 4, 4, 3, 3, 3, 2, 2,
    2, 2, 1, 1, 1, 1, 1, 1, 1, 0, 0, 0, 0, 0, 0, 0, 0
];

/// (2 ^ (n / 256) - 1) * 1024, rounded: the fractional part of the
/// exponent the log-domain level is turned back with.
pub const EXP_TABLE: [u16; 256] = [
    0, 3, 6, 8, 11, 14, 17, 20, 22, 25, 28, 31, 34, 37, 40, 42, 45, 48, 51, 54, 57, 60, 63, 66,
    69, 72, 75, 78, 81, 84, 87, 90, 93, 96, 99, 102, 105, 108, 111, 114, 117, 120, 123, 126,
    130, 133, 136, 139, 142, 145, 148, 152, 155, 158, 161, 164, 168, 171, 174, 177, 181, 184,
    187, 190, 194, 197, 200, 204, 207, 210, 214, 217, 220, 224, 227, 231, 234, 237, 241, 244,
    248, 251, 255, 258, 262, 265, 268, 272, 276, 279, 283, 286, 290, 293, 297, 300, 304, 308,
    311, 315, 318, 322, 326, 329, 333, 337, 340, 344, 348, 352, 355, 359, 363, 367, 370, 374,
    378, 382, 385, 389, 393, 397, 401, 405, 409, 412, 416, 420, 424, 428, 432, 436, 440, 444,
    448, 452, 456, 460, 464, 468, 472, 476, 480, 484, 488, 492, 496, 501, 505, 509, 513, 517,
    521, 526, 530, 534, 538, 542, 547, 551, 555, 560, 564, 568, 572, 577, 581, 585, 590, 594,
    599, 603, 607, 612, 616, 621, 625, 630, 634, 639, 643, 648, 652, 657, 661, 666, 670, 675,
    680, 684, 689, 693, 698, 703, 708, 712, 717, 722, 726, 731, 736, 741, 745, 750, 755, 760,
    765, 770, 774, 779, 784, 789, 794, 799, 804, 809, 814, 819, 824, 829, 834, 839, 844, 849,
    854, 859, 864, 869, 874, 880, 885, 890, 895, 900, 906, 911, 916, 921, 927, 932, 937, 942,
    948, 953, 959, 964, 969, 975, 980, 986, 991, 996, 1002, 1007, 1013, 1018
];

/// The amplitude vibrato's triangle, one step every 64 updates.
pub const AM_TABLE: [u8; 210] = [
    0, 0, 0, 0, 0, 0, 0, 1, 1, 1, 1, 2, 2, 2, 2, 3, 3, 3, 3, 4, 4, 4, 4, 5, 5, 5, 5, 6, 6, 6, 6,
    7, 7, 7, 7, 8, 8, 8, 8, 9, 9, 9, 9, 10, 10, 10, 10, 11, 11, 11, 11, 12, 12, 12, 12, 13, 13,
    13, 13, 14, 14, 14, 14, 15, 15, 15, 15, 16, 16, 16, 16, 17, 17, 17, 17, 18, 18, 18, 18, 19,
    19, 19, 19, 20, 20, 20, 20, 21, 21, 21, 21, 22, 22, 22, 22, 23, 23, 23, 23, 24, 24, 24, 24,
    25, 25, 25, 25, 26, 26, 26, 25, 25, 25, 25, 24, 24, 24, 24, 23, 23, 23, 23, 22, 22, 22, 22,
    21, 21, 21, 21, 20, 20, 20, 20, 19, 19, 19, 19, 18, 18, 18, 18, 17, 17, 17, 17, 16, 16, 16,
    16, 15, 15, 15, 15, 14, 14, 14, 14, 13, 13, 13, 13, 12, 12, 12, 12, 11, 11, 11, 11, 10, 10,
    10, 10, 9, 9, 9, 9, 8, 8, 8, 8, 7, 7, 7, 7, 6, 6, 6, 6, 5, 5, 5, 5, 4, 4, 4, 4, 3, 3, 3, 3,
    2, 2, 2, 2, 1, 1, 1, 1
];

/// The frequency vibrato's depth for each of the top three frequency bits
/// (rows) at each of its eight steps (columns).
pub const FM_TABLE: [[i32; 8]; 8] = [
    [0, 0, 0, 0, 0, 0, 0, 0],
    [0, 0, 1, 0, 0, 0, -1, 0],
    [0, 1, 2, 1, 0, -1, -2, -1],
    [0, 1, 3, 1, 0, -1, -3, -1],
    [0, 2, 4, 2, 0, -2, -4, -2],
    [0, 2, 5, 2, 0, -2, -5, -2],
    [0, 3, 6, 3, 0, -3, -6, -3],
    [0, 3, 7, 3, 0, -3, -7, -3],
];

/// The frequency multiplier for each 4-bit setting.
pub const MULTI_LUT: [u8; 16] = [1, 2, 4, 6, 8, 10, 12, 14, 16, 18, 20, 20, 24, 24, 30, 30];

/// The key-scale attenuation offset for each of the top four frequency bits.
pub const KEY_SCALE_LUT: [i32; 16] = [112, 64, 48, 38, 32, 26, 22, 18, 16, 12, 10, 8, 6, 4, 2, 0];

/// The custom patch (all zero at power-on) and the fifteen built-in
/// instruments, eight register bytes each.
pub const PATCHES: [u8; 128] = [
    0x00, 0x00, 0x00, 0x00, 0x00, 0x00, 0x00, 0x00,
    0x03, 0x21, 0x05, 0x06, 0xE8, 0x81, 0x42, 0x27,
    0x13, 0x41, 0x14, 0x0D, 0xD8, 0xF6, 0x23, 0x12,
    0x11, 0x11, 0x08, 0x08, 0xFA, 0xB2, 0x20, 0x12,
    0x31, 0x61, 0x0C, 0x07, 0xA8, 0x64, 0x61, 0x27,
    0x32, 0x21, 0x1E, 0x06, 0xE1, 0x76, 0x01, 0x28,
    0x02, 0x01, 0x06, 0x00, 0xA3, 0xE2, 0xF4, 0xF4,
    0x21, 0x61, 0x1D, 0x07, 0x82, 0x81, 0x11, 0x07,
    0x23, 0x21, 0x22, 0x17, 0xA2, 0x72, 0x01, 0x17,
    0x35, 0x11, 0x25, 0x00, 0x40, 0x73, 0x72, 0x01,
    0xB5, 0x01, 0x0F, 0x0F, 0xA8, 0xA5, 0x51, 0x02,
    0x17, 0xC1, 0x24, 0x07, 0xF8, 0xF8, 0x22, 0x12,
    0x71, 0x23, 0x11, 0x06, 0x65, 0x74, 0x18, 0x16,
    0x01, 0x02, 0xD3, 0x05, 0xC9, 0x95, 0x03, 0x02,
    0x61, 0x63, 0x0C, 0x00, 0x94, 0xC0, 0x33, 0xF6,
    0x21, 0x72, 0x0D, 0x00, 0xC1, 0xD5, 0x56, 0x06,
];

/// The table entries stay below the bounds the level arithmetic relies on.
proof fn lemma_tables_bounded()
    ensures
        forall|i: int| 0 <= i < 256 ==> #[trigger] LOG_SIN_TABLE@[i] <= 2137,
        forall|i: int| 0 <= i < 256 ==> #[trigger] EXP_TABLE@[i] <= 1018,
        forall|i: int| 0 <= i < 210 ==> #[trigger] AM_TABLE@[i] <= 26,
{
    assert(LOG_SIN_TABLE@ =~= seq![
        2137u16, 1731, 1543, 1419, 1326, 1252, 1190, 1137, 1091, 1050, 1013, 979, 949, 920, 894,
        869, 846, 825, 804, 785, 767, 749, 732, 717, 701, 687, 672, 659, 646, 633, 621, 609,
        598, 587, 576, 566, 556, 546, 536, 527, 518, 509, 501, 492, 484, 476, 468, 461, 453,
        446, 439, 432, 425, 418, 411, 405, 399, 392, 386, 380, 375, 369, 363, 358, 352, 347,
        341, 336, 331, 326, 321, 316, 311, 307, 302, 297, 293, 289, 284, 280, 276, 271, 267,
        263, 259, 255, 251, 248, 244, 240, 236, 233, 229, 226, 222, 219, 215, 212, 209, 205,
        202, 199, 196, 193, 190, 187, 184, 181, 178, 175, 172, 169, 167, 164, 161, 159, 156,
        153, 151, 148, 146, 143, 141, 138, 136, 134, 131, 129, 127, 125, 122, 120, 118, 116,
        114, 112, 110, 108, 106, 104, 102, 100, 98, 96, 94, 92, 91, 89, 87, 85, 83, 82, 80, 78,
        77, 75, 74, 72, 70, 69, 67, 66, 64, 63, 62, 60, 59, 57, 56, 55, 53, 52, 51, 49, 48, 47,
        46, 45, 43, 42, 41, 40, 39, 38, 37, 36, 35, 34, 33, 32, 31, 30, 29, 28, 27, 26, 25, 24,
        23, 23, 22, 21, 20, 20, 19, 18, 17, 17, 16, 15, 15, 14, 13, 13, 12, 12, 11, 10, 10, 9,
        9, 8, 8, 7, 7, 7, 6, 6, 5, 5, 5, 4, 4, 4, 3, 3, 3, 2, 2, 2, 2, 1, 1, 1, 1, 1, 1, 1, 0,
        0, 0, 0, 0, 0, 0, 0
    ]);
    assert(EXP_TABLE@ =~= seq![
        0u16, 3, 6, 8, 11, 14, 17, 20, 22, 25, 28, 31, 34, 37, 40, 42, 45, 48, 51, 54, 57, 60,
        63, 66, 69, 72, 75, 78, 81, 84, 87, 90, 93, 96, 99, 102, 105, 108, 111, 114, 117, 120,
        123, 126, 130, 133, 136, 139, 142, 145, 148, 152, 155, 158, 161, 164, 168, 171, 174,
        177, 181, 184, 187, 190, 194, 197, 200, 204, 207, 210, 214, 217, 220, 224, 227, 231,
        234, 237, 241, 244, 248, 251, 255, 258, 262, 265, 268, 272, 276, 279, 283, 286, 290,
        293, 297, 300, 304, 308, 311, 315, 318, 322, 326, 329, 333, 337, 340, 344, 348, 352,
        355, 359, 363, 367, 370, 374, 378, 382, 385, 389, 393, 397, 401, 405, 409, 412, 416,
        420, 424, 428, 432, 436, 440, 444, 448, 452, 456, 460, 464, 468, 472, 476, 480, 484,
        488, 492, 496, 501, 505, 509, 513, 517, 521, 526, 530, 534, 538, 542, 547, 551, 555,
        560, 564, 568, 572, 577, 581, 585, 590, 594, 599, 603, 607, 612, 616, 621, 625, 630,
        634, 639, 643, 648, 652, 657, 661, 666, 670, 675, 680, 684, 689, 693, 698, 703, 708,
        712, 717, 722, 726, 731, 736, 741, 745, 750, 755, 760, 765, 770, 774, 779, 784, 789,
        794, 799, 804, 809, 814, 819, 824, 829, 834, 839, 844, 849, 854, 859, 864, 869, 874,
        880, 885, 890, 895, 900, 906, 911, 916, 921, 927, 932, 937, 942, 948, 953, 959, 964,
        969, 975, 980, 986, 991, 996, 1002, 1007, 1013, 1018
    ]);
    assert(AM_TABLE@ =~= seq![
        0u8, 0, 0, 0, 0, 0, 0, 1, 1, 1, 1, 2, 2, 2, 2, 3, 3, 3, 3, 4, 4, 4, 4, 5, 5, 5, 5, 6, 6,
        6, 6, 7, 7, 7, 7, 8, 8, 8, 8, 9, 9, 9, 9, 10, 10, 10, 10, 11, 11, 11, 11, 12, 12, 12,
        12, 13, 13, 13, 13, 14, 14, 14, 14, 15, 15, 15, 15, 16, 16, 16, 16, 17, 17, 17, 17, 18,
        18, 18, 18, 19, 19, 19, 19, 20, 20, 20, 20, 21, 21, 21, 21, 22, 22, 22, 22, 23, 23, 23,
        23, 24, 24, 24, 24, 25, 25, 25, 25, 26, 26, 26, 25, 25, 25, 25, 24, 24, 24, 24, 23, 23,
        23, 23, 22, 22, 22, 22, 21, 21, 21, 21, 20, 20, 20, 20, 19, 19, 19, 19, 18, 18, 18, 18,
        17, 17, 17, 17, 16, 16, 16, 16, 15, 15, 15, 15, 14, 14, 14, 14, 13, 13, 13, 13, 12, 12,
        12, 12, 11, 11, 11, 11, 10, 10, 10, 10, 9, 9, 9, 9, 8, 8, 8, 8, 7, 7, 7, 7, 6, 6, 6, 6,
        5, 5, 5, 5, 4, 4, 4, 4, 3, 3, 3, 3, 2, 2, 2, 2, 1, 1, 1, 1
    ]);
}

/// The amplitude vibrato: a 64-update prescaler stepping through the
/// 210-entry triangle.
#[derive(Debug, Clone, Copy)]
pub struct AmUnit {
    counter: u32,
    index: usize,
}

impl AmUnit {
    pub closed spec fn wf(&self) -> bool {
        self.counter < 64 && self.index < 210
    }

    pub closed spec fn spec_index(&self) -> usize {
        self.index
    }

    pub closed spec fn spec_counter(&self) -> u32 {
        self.counter
    }

    pub closed spec fn ticked(self) -> AmUnit {
        let counter = (self.counter + 1) % 64;
        let index = if counter == 0 {
            if self.index + 1 == 210 { 0 } else { (self.index + 1) as usize }
        } else {
            self.index
        };
        AmUnit { counter: counter as u32, index }
    }

    /// Half the triangle's current step.
    pub closed spec fn spec_output(&self) -> u8 {
        AM_TABLE@[self.index as int] / 2
    }

    fn new() -> (r: Self)
        ensures
            r.wf(),
            r.spec_counter() == 0 && r.spec_index() == 0,
    {
        Self { counter: 0, index: 0 }
    }

    fn tick(&mut self)
        requires
            old(self).wf(),
        ensures
            *final(self) == old(self).ticked(),
            final(self).wf(),
    {
        self.counter = (self.counter + 1) % 64;
        if self.counter == 0 {
            self.index += 1;
            if self.index == 210 {
                self.index = 0;
            }
        }
    }

    fn reset(&mut self)
        ensures
            final(self).wf(),
            final(self).spec_counter() == 0 && final(self).spec_index() == 0,
    {
        self.counter = 0;
        self.index = 0;
    }

    fn output(&self) -> (r: u8)
        requires
            self.wf(),
        ensures
            r == self.spec_output(),
            r <= 13,
    {
        proof {
            lemma_tables_bounded();
        }
        let val = AM_TABLE[self.index];
        val / 2
    }
}

/// The frequency vibrato: a 1024-update prescaler stepping through eight
/// columns of its table.
#[derive(Debug, Clone, Copy)]
pub struct FmUnit {
    counter: u32,
    index: usize,
}

impl FmUnit {
    pub closed spec fn wf(&self) -> bool {
        self.counter < 1024 && self.index < 8
    }

    pub closed spec fn ticked(self) -> FmUnit {
        let counter = (self.counter + 1) % 1024;
        let index = if counter == 0 { ((self.index + 1) % 8) as usize } else { self.index };
        FmUnit { counter: counter as u32, index }
    }

    /// The vibrato offset for a channel's 9-bit frequency: its top three
    /// bits pick the depth.
    pub closed spec fn spec_output(&self, freq: u16) -> i32 {
        FM_TABLE@[((freq / 64) % 8) as int]@[self.index as int]
    }

    pub closed spec fn new_spec() -> FmUnit {
        FmUnit { counter: 0, index: 0 }
    }

    fn new() -> (r: Self)
        ensures
            r.wf(),
            r == FmUnit::new_spec(),
    {
        Self { counter: 0, index: 0 }
    }

    fn tick(&mut self)
        requires
            old(self).wf(),
        ensures
            *final(self) == old(self).ticked(),
            final(self).wf(),
    {
        self.counter = (self.counter + 1) % 1024;
        if self.counter == 0 {
            self.index = (self.index + 1) % 8;
        }
    }

    fn output(&self, freq: u16) -> (r: i32)
        requires
            self.wf(),
        ensures
            r == self.spec_output(freq),
            -7 <= r <= 7,
    {
        let row_idx = ((freq / 64) % 8) as usize;
        let row = FM_TABLE[row_idx];
        assert(FM_TABLE@[row_idx as int]@ =~= row@);
        row[self.index]
    }
}

/// The log-sine of a 10-bit phase: the quarter-wave table mirrored for the
/// second quarter; the negative half sets the sign bit, or gives the
/// largest attenuation when only the positive half-wave sounds.
pub open spec fn log_sin(phase: u16, half_sin: bool) -> u16 {
    let sign = (phase / 512) % 2 == 1;
    let mirror = (phase / 256) % 2 == 1;
    let p = phase % 256;
    let p: int = if mirror { 255 - p } else { p as int };
    let entry = LOG_SIN_TABLE@[p];
    if sign {
        if half_sin { 0xfff } else { (entry + 0x8000) as u16 }
    } else {
        entry
    }
}

/// A log-domain level turned back into a linear sample: the table gives the
/// mantissa, bits 8..14 the right shift, bit 15 the sign (ones' complement).
pub open spec fn exp_level(value: u16) -> i16 {
    let sign = value >= 0x8000;
    let entry = EXP_TABLE@[255 - (value % 256)] as u32;
    let t = (entry * 2 + 0x800) as u32;
    let result = (t >> (((value / 256) % 128) as u32)) as i16;
    if sign { (-1 - result) as i16 } else { result }
}

/// The two lookup tables.
#[derive(Debug, Clone, Copy)]
pub struct LookupTables {
    log_sin_entries: [u16; 256],
    exp_entries: [u16; 256],
}

impl LookupTables {
    pub closed spec fn wf(&self) -> bool {
        self.log_sin_entries@ == LOG_SIN_TABLE@ && self.exp_entries@ == EXP_TABLE@
    }

    fn new() -> (r: Self)
        ensures
            r.wf(),
    {
        Self { log_sin_entries: LOG_SIN_TABLE, exp_entries: EXP_TABLE }
    }

    fn log_sin(&self, phase: u16, half_sin: bool) -> (r: u16)
        requires
            self.wf(),
        ensures
            r == log_sin(phase, half_sin),
            r <= 0x8000 + 2137,
    {
        proof {
            lemma_tables_bounded();
        }
        let sign = (phase / 512) % 2 == 1;
        let mirror = (phase / 256) % 2 == 1;
        let phase = phase % 256;
        let phase = if mirror { 255 - phase } else { phase };
        let entry = self.log_sin_entries[phase as usize];
        if sign {
            if half_sin { 0xfff } else { entry + 0x8000 }
        } else {
            entry
        }
    }

    /// Requires a shift (bits 8..14) below 24, which the levels a slot
    /// produces keep to.
    fn exp(&self, value: u16) -> (r: i16)
        requires
            self.wf(),
            value % 0x8000 < 0x1800,
        ensures
            r == exp_level(value),
            -4096 <= r <= 4095,
    {
        proof {
            lemma_tables_bounded();
        }
        let sign = value >= 0x8000;
        let entry = self.exp_entries[(255 - (value % 256)) as usize] as u32;
        let t: u32 = entry * 2 + 0x800;
        let shift = ((value / 256) % 128) as u32;
        proof {
            vstd::bits::lemma_u32_shr_is_div(t, shift);
            vstd::arithmetic::power2::lemma_pow2_pos(shift as nat);
            vstd::arithmetic::div_mod::lemma_div_is_ordered_by_denominator(t as int, 1, pow2(shift as nat) as int);
        }
        let result = (t >> shift) as i16;
        if sign {
            -1 - result
        } else {
            result
        }
    }
}

#[derive(Debug, Copy, Clone, PartialEq, Eq, Structural)]
pub enum SlotKind {
    Modulator,
    Carrier,
}

impl SlotKind {
    pub open spec fn spec_ctrl_reg(&self) -> int {
        match self {
            SlotKind::Modulator => 0,
            SlotKind::Carrier => 1,
        }
    }

    fn ctrl_reg(&self) -> (r: usize)
        ensures
            r == self.spec_ctrl_reg(),
    {
        match self {
            SlotKind::Modulator => 0,
            SlotKind::Carrier => 1,
        }
    }

    fn ksl_reg(&self) -> (r: usize)
        ensures
            r == self.spec_ctrl_reg() + 2,
    {
        match self {
            SlotKind::Modulator => 2,
            SlotKind::Carrier => 3,
        }
    }

    fn ad_reg(&self) -> (r: usize)
        ensures
            r == self.spec_ctrl_reg() + 4,
    {
        match self {
            SlotKind::Modulator => 4,
            SlotKind::Carrier => 5,
        }
    }

    fn sr_reg(&self) -> (r: usize)
        ensures
            r == self.spec_ctrl_reg() + 6,
    {
        match self {
            SlotKind::Modulator => 6,
            SlotKind::Carrier => 7,
        }
    }

    /// The waveform bit of register 3: bit 3 for the modulator, bit 4 for
    /// the carrier.
    fn half_sin_div(&self) -> (r: u8)
        ensures
            r == if *self is Modulator { 8u8 } else { 16u8 },
    {
        match self {
            SlotKind::Modulator => 8,
            SlotKind::Carrier => 16,
        }
    }
}

/// One operator's view of a patch: its own control, key-scale, attack /
/// decay and sustain / release registers, and the shared bytes 2 and 3.
#[derive(Debug, Clone, Copy)]
pub struct Instrument {
    regs: [u8; 8],
    kind: SlotKind,
}

impl Instrument {
    pub closed spec fn spec_regs(&self) -> Seq<u8> {
        self.regs@
    }

    pub closed spec fn spec_kind(&self) -> SlotKind {
        self.kind
    }

    pub closed spec fn ctrl(&self) -> u8 {
        self.regs@[self.kind.spec_ctrl_reg()]
    }

    pub closed spec fn spec_am(&self) -> bool {
        self.ctrl() >= 0x80
    }

    pub closed spec fn spec_fm(&self) -> bool {
        (self.ctrl() / 64) % 2 == 1
    }

    /// Percussive (not sustained) envelopes release on their own.
    pub closed spec fn spec_percussion(&self) -> bool {
        (self.ctrl() / 32) % 2 == 0
    }

    pub closed spec fn spec_ksr(&self) -> bool {
        (self.ctrl() / 16) % 2 == 1
    }

    pub closed spec fn spec_multi(&self) -> u8 {
        MULTI_LUT@[(self.ctrl() % 16) as int]
    }

    pub closed spec fn spec_ksl(&self) -> u8 {
        self.regs@[self.kind.spec_ctrl_reg() + 2] / 64
    }

    pub closed spec fn spec_base_attenuation(&self) -> u8 {
        self.regs@[2] % 64
    }

    pub closed spec fn spec_half_sin(&self) -> bool {
        if self.kind is Modulator {
            (self.regs@[3] / 8) % 2 == 1
        } else {
            (self.regs@[3] / 16) % 2 == 1
        }
    }

    pub closed spec fn spec_feedback_level(&self) -> u8 {
        self.regs@[3] % 8
    }

    pub closed spec fn spec_attack_rate(&self) -> u8 {
        self.regs@[self.kind.spec_ctrl_reg() + 4] / 16
    }

    pub closed spec fn spec_decay_rate(&self) -> u8 {
        self.regs@[self.kind.spec_ctrl_reg() + 4] % 16
    }

    pub closed spec fn spec_sustain_level(&self) -> u8 {
        self.regs@[self.kind.spec_ctrl_reg() + 6] / 16
    }

    pub closed spec fn spec_release_rate(&self) -> u8 {
        self.regs@[self.kind.spec_ctrl_reg() + 6] % 16
    }

    /// The operator's view of the first eight bytes of `regs`.
    fn new(regs: &[u8; 8], kind: SlotKind) -> (r: Self)
        ensures
            r == (Instrument { regs: *regs, kind }),
            r.spec_regs() == regs@,
            r.spec_kind() == kind,
    {
        Self { regs: *regs, kind }
    }

    fn am(&self) -> (r: bool)
        ensures
            r == self.spec_am(),
    {
        self.regs[self.kind.ctrl_reg()] >= 0x80
    }

    fn fm(&self) -> (r: bool)
        ensures
            r == self.spec_fm(),
    {
        (self.regs[self.kind.ctrl_reg()] / 64) % 2 == 1
    }

    fn percussion(&self) -> (r: bool)
        ensures
            r == self.spec_percussion(),
    {
        (self.regs[self.kind.ctrl_reg()] / 32) % 2 == 0
    }

    fn ksr(&self) -> (r: bool)
        ensures
            r == self.spec_ksr(),
    {
        (self.regs[self.kind.ctrl_reg()] / 16) % 2 == 1
    }

    fn multi(&self) -> (r: u8)
        ensures
            r == self.spec_multi(),
            1 <= r <= 30,
    {
        assert(MULTI_LUT@ =~= seq![1u8, 2, 4, 6, 8, 10, 12, 14, 16, 18, 20, 20, 24, 24, 30, 30]);
        let multi = self.regs[self.kind.ctrl_reg()] % 16;
        MULTI_LUT[multi as usize]
    }

    fn ksl(&self) -> (r: u8)
        ensures
            r == self.spec_ksl(),
            r <= 3,
    {
        self.regs[self.kind.ksl_reg()] / 64
    }

    fn base_attenuation(&self) -> (r: u8)
        ensures
            r == self.spec_base_attenuation(),
            r < 64,
    {
        self.regs[2] % 64
    }

    fn half_sin(&self) -> (r: bool)
        ensures
            r == self.spec_half_sin(),
    {
        (self.regs[3] / self.kind.half_sin_div()) % 2 == 1
    }

    fn feedback_level(&self) -> (r: u8)
        ensures
            r == self.spec_feedback_level(),
            r < 8,
    {
        self.regs[3] % 8
    }

    fn attack_rate(&self) -> (r: u8)
        ensures
            r == self.spec_attack_rate(),
            r < 16,
    {
        self.regs[self.kind.ad_reg()] / 16
    }

    fn decay_rate(&self) -> (r: u8)
        ensures
            r == self.spec_decay_rate(),
            r < 16,
    {
        self.regs[self.kind.ad_reg()] % 16
    }

    fn sustain_level(&self) -> (r: u8)
        ensures
            r == self.spec_sustain_level(),
            r < 16,
    {
        self.regs[self.kind.sr_reg()] / 16
    }

    fn release_rate(&self) -> (r: u8)
        ensures
            r == self.spec_release_rate(),
            r < 16,
    {
        self.regs[self.kind.sr_reg()] % 16
    }
}

#[derive(Debug, Copy, Clone, PartialEq, Eq, Structural)]
pub enum EnvelopePhase {
    Attack,
    Decay,
    Sustain,
    Release,
    Idle,
}

/// The envelope rate for a phase: percussive patches release from the
/// sustain phase, a held sustain switch slows the release to 5.
pub open spec fn env_rate(phase: EnvelopePhase, inst: Instrument, sustain_on: bool) -> u8 {
    match phase {
        EnvelopePhase::Attack => inst.spec_attack_rate(),
        EnvelopePhase::Decay => inst.spec_decay_rate(),
        EnvelopePhase::Sustain => if inst.spec_percussion() { inst.spec_release_rate() } else { 0 },
        EnvelopePhase::Release => if sustain_on {
            5
        } else if inst.spec_percussion() {
            inst.spec_release_rate()
        } else {
            7
        },
        EnvelopePhase::Idle => 0,
    }
}

/// The rate scaled by the key: 4 * rate plus the block / frequency code
/// (all of it with key-scale rate, its top two bits without).
pub open spec fn env_rks(inst: Instrument, r: u32, freq: u32, octave: u32) -> u32 {
    let bf = freq / 256 + octave * 2;
    let kb = if inst.spec_ksr() { bf } else { bf / 4 };
    (r * 4 + kb) as u32
}

/// What the envelope counter advances by in a phase at a scaled rate.
pub open spec fn env_step(phase: EnvelopePhase, r: u32, rks: u32) -> u32 {
    let rh = if rks / 4 > 15 { 15u32 } else { rks / 4 };
    let rl = rks % 4;
    if r == 0 {
        0
    } else if phase is Attack {
        ((12 * (rl + 4)) as u32) << rh
    } else if phase is Idle {
        0
    } else {
        ((rl + 4) as u32) << ((rh - 1) as u32)
    }
}

/// One operator: its patch view, 19-bit phase, envelope phase and 23-bit
/// envelope counter.
#[derive(Debug, Clone, Copy)]
pub struct Slot {
    kind: SlotKind,
    inst: Instrument,
    phase: u32,
    envelope_phase: EnvelopePhase,
    egc: u32,
}

impl Slot {
    pub closed spec fn wf(&self) -> bool {
        self.egc <= MAX_DB && self.phase < 0x80000
    }

    pub closed spec fn spec_inst(&self) -> Instrument {
        self.inst
    }

    pub closed spec fn spec_phase(&self) -> u32 {
        self.phase
    }

    pub closed spec fn spec_envelope_phase(&self) -> EnvelopePhase {
        self.envelope_phase
    }

    pub closed spec fn spec_egc(&self) -> u32 {
        self.egc
    }

    /// The envelope after one update, and its attenuation (7 bits).
    pub closed spec fn enveloped(self, sustain_on: bool, freq: u32, octave: u32) -> (Slot, u32) {
        let r = env_rate(self.envelope_phase, self.inst, sustain_on) as u32;
        let rks = env_rks(self.inst, r, freq, octave);
        let egc = (self.egc + env_step(self.envelope_phase, r, rks)) as u32;
        let (egc, phase, out) = match self.envelope_phase {
            EnvelopePhase::Attack => if egc >= MAX_DB {
                (0u32, EnvelopePhase::Decay, 0u32)
            } else {
                (egc, EnvelopePhase::Attack, (MAX_DB - egc) as u32)
            },
            EnvelopePhase::Decay => {
                let sustain = if 3 * self.inst.spec_sustain_level() * ONE_DB > MAX_DB {
                    MAX_DB
                } else {
                    (3 * self.inst.spec_sustain_level() * ONE_DB) as u32
                };
                if egc >= sustain {
                    (sustain, EnvelopePhase::Sustain, sustain)
                } else {
                    (egc, EnvelopePhase::Decay, egc)
                }
            },
            EnvelopePhase::Sustain => if egc >= MAX_DB {
                (MAX_DB, EnvelopePhase::Idle, MAX_DB)
            } else {
                (egc, EnvelopePhase::Sustain, egc)
            },
            EnvelopePhase::Release => if egc >= MAX_DB {
                (MAX_DB, EnvelopePhase::Idle, MAX_DB)
            } else {
                (egc, EnvelopePhase::Release, egc)
            },
            EnvelopePhase::Idle => (egc, EnvelopePhase::Idle, MAX_DB),
        };
        (Slot { egc, envelope_phase: phase, ..self }, (out / 65536) % 128)
    }

    fn new(kind: SlotKind, inst: &[u8; 8]) -> (r: Self)
        ensures
            r.wf(),
            r.spec_inst().spec_regs() == inst@,
            r.spec_inst().spec_kind() == kind,
            r.kind == kind,
            r.spec_phase() == 0,
            r.spec_envelope_phase() == EnvelopePhase::Idle,
            r.spec_egc() == 0,
    {
        Self { kind, inst: Instrument::new(inst, kind), phase: 0, envelope_phase: EnvelopePhase::Idle, egc: 0 }
    }

    #[verifier::spinoff_prover]
    #[verifier::rlimit(30)]
    fn envelope(&mut self, sustain_on: bool, freq: u32, octave: u32) -> (r: u32)
        requires
            old(self).wf(),
            freq < 512,
            octave < 8,
        ensures
            (*final(self), r) == old(self).enveloped(sustain_on, freq, octave),
            final(self).wf(),
            r < 128,
    {
        let bf = freq / 256 + octave * 2;
        let kb = if self.inst.ksr() { bf } else { bf / 4 };

        let r: u8 = match self.envelope_phase {
            EnvelopePhase::Attack => self.inst.attack_rate(),
            EnvelopePhase::Decay => self.inst.decay_rate(),
            EnvelopePhase::Sustain => if self.inst.percussion() { self.inst.release_rate() } else { 0 },
            EnvelopePhase::Release => {
                if sustain_on {
                    5
                } else if self.inst.percussion() {
                    self.inst.release_rate()
                } else {
                    7
                }
            },
            EnvelopePhase::Idle => 0,
        };

        let r = r as u32;
        let rks = r * 4 + kb;
        let rh = rks / 4;
        let rh = if rh > 15 { 15 } else { rh };
        let rl = rks % 4;

        let adj: u32 = if r == 0 {
            0
        } else {
            match self.envelope_phase {
                EnvelopePhase::Attack => {
                    proof {
                        lemma_shl_bound((12 * (rl + 4)) as u32, rh, 84);
                    }
                    (12 * (rl + 4)) << rh
                },
                EnvelopePhase::Idle => 0,
                _ => {
                    proof {
                        lemma_shl_bound((rl + 4) as u32, (rh - 1) as u32, 7);
                    }
                    (rl + 4) << (rh - 1)
                },
            }
        };
        assert(adj == env_step(self.envelope_phase, r, rks));

        self.egc += adj;

        let out = match self.envelope_phase {
            EnvelopePhase::Attack => {
                if self.egc >= MAX_DB {
                    self.egc = 0;
                    self.envelope_phase = EnvelopePhase::Decay;
                    self.egc
                } else {
                    MAX_DB - self.egc
                }
            },
            EnvelopePhase::Decay => {
                let product: u32 = 3 * self.inst.sustain_level() as u32 * ONE_DB;
                let sustain = if product > MAX_DB { MAX_DB } else { product };
                if self.egc >= sustain {
                    self.egc = sustain;
                    self.envelope_phase = EnvelopePhase::Sustain;
                }
                self.egc
            },
            EnvelopePhase::Sustain => {
                if self.egc >= MAX_DB {
                    self.egc = MAX_DB;
                    self.envelope_phase = EnvelopePhase::Idle;
                }
                self.egc
            },
            EnvelopePhase::Release => {
                if self.egc >= MAX_DB {
                    self.egc = MAX_DB;
                    self.envelope_phase = EnvelopePhase::Idle;
                }
                self.egc
            },
            EnvelopePhase::Idle => MAX_DB,
        };

        (out / 65536) % 128
    }

    /// The operator's phase increment for a frequency, octave and vibrato
    /// offset: (2 * freq + fm) * multi, shifted up by the octave and down
    /// by two.
    pub closed spec fn phase_step(self, freq: u32, octave: u32, fm_out: i32) -> i32 {
        let fm: i32 = if self.inst.spec_fm() { fm_out } else { 0 };
        let base = ((2 * freq + fm) * self.inst.spec_multi()) as i32;
        (base << octave) >> 2u32
    }

    /// The phase offset the other operator's output gives: the modulator
    /// feeds back its own last two outputs scaled by the feedback level,
    /// the carrier is modulated by twice the modulator's output.
    pub closed spec fn modulation(self, mod_out: i16) -> i16 {
        match self.kind {
            SlotKind::Modulator => {
                let f = self.inst.spec_feedback_level();
                let v: i16 = if f == 0 { 0 } else { mod_out >> ((8 - f) as u16) };
                (v - 1) as i16
            },
            SlotKind::Carrier => (2 * mod_out) as i16,
        }
    }

    /// The key-scale attenuation: nothing at level 0, else the octave's
    /// excess over the frequency's table entry, shifted down by 3 - level.
    pub closed spec fn key_scale(self, freq: u32, octave: u32) -> u32 {
        let k = self.inst.spec_ksl();
        if k == 0 {
            0
        } else {
            let a = 16 * octave - KEY_SCALE_LUT@[(freq / 32) as int];
            if a <= 0 { 0 } else { (a as u32) >> ((3 - k) as u32) }
        }
    }

    /// One update of the operator and its output: the phase advances, the
    /// envelope steps, and unless the envelope is near silent the
    /// log-sine of the (modulated) phase plus the total attenuation is
    /// turned back into a sample.
    pub closed spec fn ticked(
        self,
        freq: u32,
        octave: u32,
        volume: u8,
        sustain_on: bool,
        mod_out: i16,
        fm_out: i32,
        am_out: u8,
    ) -> (Slot, i16) {
        let phase = self.phase.wrapping_add_signed(self.phase_step(freq, octave, fm_out)) % 0x80000;
        let adj = self.modulation(mod_out);
        let sin_phase = ((phase / 512).wrapping_add_signed(adj as i32) % 1024) as u16;
        let base: u32 = match self.kind {
            SlotKind::Modulator => (2 * self.inst.spec_base_attenuation()) as u32,
            SlotKind::Carrier => (8 * volume) as u32,
        };
        let am: u32 = if self.inst.spec_am() { am_out as u32 } else { 0 };
        let (s, envelope) = (Slot { phase, ..self }).enveloped(sustain_on, freq, octave);
        let total = base + self.key_scale(freq, octave) + envelope + am;
        let attenuation: u16 = if total > 127 { 127 } else { total as u16 };
        let output = if (envelope / 4) % 32 == 31 {
            0i16
        } else {
            exp_level((log_sin(sin_phase, self.inst.spec_half_sin()) + 16 * attenuation) as u16)
        };
        (s, output)
    }

    fn advance_phase(&mut self, freq: u32, octave: u32, fm_out: i32)
        requires
            old(self).wf(),
            freq < 512,
            octave < 8,
            -7 <= fm_out <= 7,
        ensures
            *final(self) == (Slot {
                phase: old(self).phase.wrapping_add_signed(old(self).phase_step(freq, octave, fm_out)) % 0x80000,
                ..*old(self)
            }),
            final(self).wf(),
    {
        let fm = if self.inst.fm() { fm_out } else { 0 };
        let multi = self.inst.multi();
        let sum: i32 = (2 * freq) as i32 + fm;
        assert(-7 * 30 <= sum * multi <= 1029 * 30) by (nonlinear_arith)
            requires
                -7 <= sum <= 1029,
                1 <= multi <= 30,
        ;
        let step_base: i32 = sum * multi as i32;
        let phase_inc = (step_base << octave) >> 2;
        self.phase = self.phase.wrapping_add_signed(phase_inc) % 0x80000;
    }

    fn modulation_exec(&self, mod_out: i16) -> (r: i16)
        requires
            -4096 <= mod_out <= 4095,
        ensures
            r == self.modulation(mod_out),
    {
        match self.kind {
            SlotKind::Modulator => {
                let f = self.inst.feedback_level();
                let v: i16 = if f == 0 { 0 } else { mod_out >> (8 - f) as u16 };
                proof {
                    if f != 0 {
                        lemma_i16_shr_bounds(mod_out, (8 - f) as u16);
                    }
                }
                v - 1
            },
            SlotKind::Carrier => 2 * mod_out,
        }
    }

    fn key_scale_exec(&self, freq: u32, octave: u32) -> (r: u32)
        requires
            freq < 512,
            octave < 8,
        ensures
            r == self.key_scale(freq, octave),
            r <= 112,
    {
        let k = self.inst.ksl();
        if k == 0 {
            0
        } else {
            assert(KEY_SCALE_LUT@ =~= seq![112i32, 64, 48, 38, 32, 26, 22, 18, 16, 12, 10, 8, 6, 4, 2, 0]);
            let f = (freq / 32) as usize;
            let b = octave as i32;
            let a = 16 * b - KEY_SCALE_LUT[f];
            if a <= 0 {
                0
            } else {
                proof {
                    vstd::bits::lemma_u32_shr_is_div(a as u32, (3 - k) as u32);
                    vstd::arithmetic::power2::lemma_pow2_pos((3 - k) as nat);
                    vstd::arithmetic::div_mod::lemma_div_is_ordered_by_denominator(
                        a as int,
                        1,
                        pow2((3 - k) as nat) as int,
                    );
                }
                (a as u32) >> (3 - k) as u32
            }
        }
    }

    #[verifier::spinoff_prover]
    fn tick(
        &mut self,
        tables: &LookupTables,
        freq: u32,
        octave: u32,
        volume: u8,
        sustain_on: bool,
        mod_out: i16,
        fm_out: i32,
        am_out: u8,
    ) -> (r: i16)
        requires
            old(self).wf(),
            tables.wf(),
            freq < 512,
            octave < 8,
            volume < 16,
            -4096 <= mod_out <= 4095,
            -7 <= fm_out <= 7,
            am_out <= 13,
        ensures
            (*final(self), r) == old(self).ticked(freq, octave, volume, sustain_on, mod_out, fm_out, am_out),
            final(self).wf(),
            -4096 <= r <= 4095,
    {
        self.advance_phase(freq, octave, fm_out);
        let adj = self.modulation_exec(mod_out);
        let phase_secondary = (self.phase / 512).wrapping_add_signed(adj as i32);
        let sin_phase = (phase_secondary % 1024) as u16;

        let base: u32 = match self.kind {
            SlotKind::Modulator => 2 * self.inst.base_attenuation() as u32,
            SlotKind::Carrier => 8 * volume as u32,
        };
        let key_scale = self.key_scale_exec(freq, octave);
        let am: u32 = if self.inst.am() { am_out as u32 } else { 0 };
        let half_sin = self.inst.half_sin();

        let envelope = self.envelope(sustain_on, freq, octave);

        if (envelope / 4) % 32 == 31 {
            0
        } else {
            let sin = tables.log_sin(sin_phase, half_sin);
            let total = base + key_scale + envelope + am;
            let attenuation: u16 = if total > 127 { 127 } else { total as u16 };
            tables.exp(sin + 16 * attenuation)
        }
    }

    fn key_on(&mut self)
        ensures
            *final(self) == (Slot { egc: 0, phase: 0, envelope_phase: EnvelopePhase::Attack, ..*old(self) }),
    {
        self.egc = 0;
        self.phase = 0;
        self.envelope_phase = EnvelopePhase::Attack;
    }

    fn key_off(&mut self)
        requires
            old(self).wf(),
        ensures
            *final(self) == (Slot {
                egc: if old(self).envelope_phase is Attack { (MAX_DB - old(self).egc) as u32 } else { old(self).egc },
                envelope_phase: EnvelopePhase::Release,
                ..*old(self)
            }),
            final(self).wf(),
    {
        if matches!(self.envelope_phase, EnvelopePhase::Attack) {
            self.egc = MAX_DB - self.egc;
        }
        self.envelope_phase = EnvelopePhase::Release;
    }
}

/// An arithmetic right shift by at least one halves the range.
proof fn lemma_i16_shr_bounds(x: i16, s: u16)
    requires
        -4096 <= x <= 4095,
        1 <= s <= 8,
    ensures
        -2048 <= x >> s <= 2047,
{
    assert(-4096 <= x <= 4095 && 1 <= s <= 8 ==> -2048 <= x >> s <= 2047) by (bit_vector);
}

/// A small value shifted left by at most 15 stays below its bound times 2^15.
proof fn lemma_shl_bound(x: u32, s: u32, bound: u32)
    requires
        x <= bound,
        bound <= 84,
        s <= 15,
    ensures
        x << s <= bound * 32768,
{
    vstd::arithmetic::power2::lemma2_to64();
    if s < 15 {
        vstd::arithmetic::power2::lemma_pow2_strictly_increases(s as nat, 15);
    }
    assert(x * pow2(s as nat) <= bound * 32768) by (nonlinear_arith)
        requires
            x <= bound,
            pow2(s as nat) <= 32768,
    {
    }
    vstd::bits::lemma_u32_shl_is_mul(x, s);
}

/// The eight register bytes of patch `index`.
pub open spec fn patch(patches: Seq<u8>, index: int) -> Seq<u8> {
    patches.subrange(index * 8, index * 8 + 8)
}

fn patch_regs(patches: &[u8; 128], index: usize) -> (r: [u8; 8])
    requires
        index < 16,
    ensures
        r@ == patch(patches@, index as int),
{
    let b = index * 8;
    let r = [
        patches[b],
        patches[b + 1],
        patches[b + 2],
        patches[b + 3],
        patches[b + 4],
        patches[b + 5],
        patches[b + 6],
        patches[b + 7],
    ];
    assert(r@ =~= patch(patches@, index as int));
    r
}

/// One of the six channels: a modulator feeding a carrier, the channel's
/// frequency / octave / key / sustain and instrument / volume registers,
/// and the modulator's last two outputs.
#[derive(Debug, Clone, Copy)]
pub struct Channel {
    carrier: Slot,
    modulator: Slot,
    regs: [u8; 3],
    mod_output: i16,
    prev_mod_output: i16,
}

impl Channel {
    pub closed spec fn wf(&self) -> bool {
        &&& self.carrier.wf()
        &&& self.modulator.wf()
        &&& self.carrier.kind is Carrier
        &&& self.modulator.kind is Modulator
        &&& -2048 <= self.mod_output <= 2047
        &&& -2048 <= self.prev_mod_output <= 2047
    }

    pub closed spec fn spec_regs(&self) -> Seq<u8> {
        self.regs@
    }

    /// The modulator's last output and the one before.
    pub closed spec fn spec_mod_outputs(&self) -> (i16, i16) {
        (self.mod_output, self.prev_mod_output)
    }

    pub closed spec fn spec_carrier(&self) -> Slot {
        self.carrier
    }

    pub closed spec fn spec_modulator(&self) -> Slot {
        self.modulator
    }

    /// The 9-bit frequency: register 0 and bit 0 of register 1.
    pub closed spec fn spec_frequency(&self) -> u16 {
        (self.regs@[0] + (self.regs@[1] % 2) * 256) as u16
    }

    pub closed spec fn spec_octave(&self) -> u8 {
        (self.regs@[1] / 2) % 8
    }

    pub closed spec fn spec_key_on(&self) -> bool {
        (self.regs@[1] / 16) % 2 == 1
    }

    pub closed spec fn spec_sustain_on(&self) -> bool {
        (self.regs@[1] / 32) % 2 == 1
    }

    pub closed spec fn spec_volume(&self) -> u8 {
        self.regs@[2] % 16
    }

    pub closed spec fn spec_instrument(&self) -> u8 {
        self.regs@[2] / 16
    }

    /// A register write: keying on loads both operators from the selected
    /// patch and starts their attack, keying off releases them.
    pub closed spec fn written(self, patches: Seq<u8>, reg: u8, value: u8) -> Channel {
        if reg == 0 {
            Channel { regs: [value, self.regs[1], self.regs[2]], ..self }
        } else if reg == 1 {
            let c = Channel { regs: [self.regs[0], value, self.regs[2]], ..self };
            if self.spec_key_on() != c.spec_key_on() {
                if c.spec_key_on() {
                    let p = patch(patches, c.spec_instrument() as int);
                    let carrier_inst = Instrument { regs: [p[0], p[1], p[2], p[3], p[4], p[5], p[6], p[7]], kind: SlotKind::Carrier };
                    let modulator_inst = Instrument { regs: [p[0], p[1], p[2], p[3], p[4], p[5], p[6], p[7]], kind: SlotKind::Modulator };
                    Channel {
                        carrier: Slot { inst: carrier_inst, egc: 0, phase: 0, envelope_phase: EnvelopePhase::Attack, ..c.carrier },
                        modulator: Slot { inst: modulator_inst, egc: 0, phase: 0, envelope_phase: EnvelopePhase::Attack, ..c.modulator },
                        ..c
                    }
                } else {
                    Channel {
                        carrier: Slot {
                            egc: if c.carrier.envelope_phase is Attack { (MAX_DB - c.carrier.egc) as u32 } else { c.carrier.egc },
                            envelope_phase: EnvelopePhase::Release,
                            ..c.carrier
                        },
                        modulator: Slot {
                            egc: if c.modulator.envelope_phase is Attack { (MAX_DB - c.modulator.egc) as u32 } else { c.modulator.egc },
                            envelope_phase: EnvelopePhase::Release,
                            ..c.modulator
                        },
                        ..c
                    }
                }
            } else {
                c
            }
        } else if reg == 2 {
            Channel { regs: [self.regs[0], self.regs[1], value], ..self }
        } else {
            self
        }
    }

    /// One update: the modulator runs on the sum of its last two outputs
    /// and its halved output modulates the carrier, whose output is the
    /// channel's.
    pub closed spec fn ticked(self, am_out: u8, fm: FmUnit) -> (Channel, i16) {
        let freq = self.spec_frequency() as u32;
        let octave = self.spec_octave() as u32;
        let volume = self.spec_volume();
        let sustain_on = self.spec_sustain_on();
        let fm_out = fm.spec_output(self.spec_frequency());
        let current_mod = (self.mod_output + self.prev_mod_output) as i16;
        let (m, mout) = self.modulator.ticked(freq, octave, volume, sustain_on, current_mod, fm_out, am_out);
        let mod_output = mout >> 1u16;
        let (c, out) = self.carrier.ticked(freq, octave, volume, sustain_on, mod_output, fm_out, am_out);
        (Channel { modulator: m, carrier: c, prev_mod_output: self.mod_output, mod_output, ..self }, out)
    }

    fn new() -> (r: Self)
        ensures
            r.wf(),
            r.spec_regs() == seq![0u8, 0, 0],
            r.spec_carrier().spec_envelope_phase() == EnvelopePhase::Idle,
            r.spec_modulator().spec_envelope_phase() == EnvelopePhase::Idle,
            r.spec_carrier().spec_egc() == 0 && r.spec_modulator().spec_egc() == 0,
            r.spec_carrier().spec_phase() == 0 && r.spec_modulator().spec_phase() == 0,
            r.spec_carrier().spec_inst().spec_regs() == seq![0u8, 0, 0, 0, 0, 0, 0, 0],
            r.spec_modulator().spec_inst().spec_regs() == seq![0u8, 0, 0, 0, 0, 0, 0, 0],
            r.spec_mod_outputs() == (0i16, 0i16),
    {
        let r = Self {
            carrier: Slot::new(SlotKind::Carrier, &[0; 8]),
            modulator: Slot::new(SlotKind::Modulator, &[0; 8]),
            regs: [0; 3],
            mod_output: 0,
            prev_mod_output: 0,
        };
        assert(r.regs@ =~= seq![0u8, 0, 0]);
        r
    }

    fn frequency(&self) -> (r: u16)
        ensures
            r == self.spec_frequency(),
            r < 512,
    {
        self.regs[0] as u16 + ((self.regs[1] % 2) as u16) * 256
    }

    fn octave(&self) -> (r: u8)
        ensures
            r == self.spec_octave(),
            r < 8,
    {
        (self.regs[1] / 2) % 8
    }

    fn key_on(&self) -> (r: bool)
        ensures
            r == self.spec_key_on(),
    {
        (self.regs[1] / 16) % 2 == 1
    }

    fn sustain_on(&self) -> (r: bool)
        ensures
            r == self.spec_sustain_on(),
    {
        (self.regs[1] / 32) % 2 == 1
    }

    fn volume(&self) -> (r: u8)
        ensures
            r == self.spec_volume(),
            r < 16,
    {
        self.regs[2] % 16
    }

    fn instrument(&self) -> (r: u8)
        ensures
            r == self.spec_instrument(),
            r < 16,
    {
        self.regs[2] / 16
    }

    fn write(&mut self, patches: &[u8; 128], reg: u8, value: u8)
        requires
            old(self).wf(),
        ensures
            *final(self) == old(self).written(patches@, reg, value),
            final(self).wf(),
    {
        if reg == 0 {
            self.regs[0] = value;
            assert(self.regs =~= [value, old(self).regs[1], old(self).regs[2]]);
        } else if reg == 1 {
            let was_key_on = self.key_on();
            self.regs[1] = value;
            assert(self.regs =~= [old(self).regs[0], value, old(self).regs[2]]);
            assert(*self == (Channel { regs: [old(self).regs[0], value, old(self).regs[2]], ..*old(self) }));
            if was_key_on != self.key_on() {
                if self.key_on() {
                    let inst = patch_regs(patches, self.instrument() as usize);
                    let ghost p = patch(patches@, self.spec_instrument() as int);
                    assert(inst =~= [p[0], p[1], p[2], p[3], p[4], p[5], p[6], p[7]]);
                    self.carrier.inst = Instrument::new(&inst, SlotKind::Carrier);
                    self.modulator.inst = Instrument::new(&inst, SlotKind::Modulator);
                    self.carrier.key_on();
                    self.modulator.key_on();
                } else {
                    self.carrier.key_off();
                    self.modulator.key_off();
                }
            }
        } else if reg == 2 {
            self.regs[2] = value;
            assert(self.regs =~= [old(self).regs[0], old(self).regs[1], value]);
        }
    }

    fn tick(&mut self, tables: &LookupTables, am_out: u8, fm_unit: &FmUnit) -> (r: i16)
        requires
            old(self).wf(),
            tables.wf(),
            fm_unit.wf(),
            am_out <= 13,
        ensures
            (*final(self), r) == old(self).ticked(am_out, *fm_unit),
            final(self).wf(),
            -4096 <= r <= 4095,
    {
        let freq = self.frequency();
        let octave = self.octave();
        let volume = self.volume();
        let sustain_on = self.sustain_on();
        let fm_out = fm_unit.output(freq);

        let current_mod = self.mod_output + self.prev_mod_output;
        self.prev_mod_output = self.mod_output;
        let m = self.modulator.tick(
            tables,
            freq as u32,
            octave as u32,
            volume,
            sustain_on,
            current_mod,
            fm_out,
            am_out,
        );
        proof {
            lemma_i16_shr_bounds(m, 1);
        }
        self.mod_output = m >> 1;

        self.carrier.tick(
            tables,
            freq as u32,
            octave as u32,
            volume,
            sustain_on,
            self.mod_output,
            fm_out,
            am_out,
        )
    }

    fn reset(&mut self, patches: &[u8; 128])
        requires
            old(self).wf(),
        ensures
            *final(self) == old(self).written(patches@, 0, 0).written(patches@, 1, 0).written(patches@, 2, 0),
            final(self).wf(),
    {
        self.write(patches, 0, 0);
        self.write(patches, 1, 0);
        self.write(patches, 2, 0);
    }
}

/// A channel's register writes that return it to silence.
pub open spec fn channel_reset(c: Channel, patches: Seq<u8>) -> Channel {
    c.written(patches, 0, 0).written(patches, 1, 0).written(patches, 2, 0)
}

/// A register write, as `Sound::write` makes it.
/// Silence holds until lifted: a $E000 write with bit 6 set silences the
/// chip (and then it outputs the middle value 16383); while silenced,
/// register-select and patch writes are ignored, and only another $E000
/// write lifts it.
pub proof fn lemma_silence_holds(new: Sound, old: Sound, addr: u16, value: u8)
    requires
        sound_written(new, old, addr, value),
        new.wf(),
    ensures
        addr == 0xe000 ==> new.spec_silence() == ((value / 64) % 2 == 1),
        addr != 0xe000 && old.spec_silence() ==> new.spec_silence() && new.spec_reg_select()
            == old.spec_reg_select() && new.spec_patches() == old.spec_patches(),
        new.spec_silence() ==> new.spec_output() == 16383,
{
    new.lemma_output_range();
}

pub open spec fn sound_written(new: Sound, old: Sound, addr: u16, value: u8) -> bool {
    &&& new.spec_fm() == old.spec_fm()
    &&& new.spec_active() == old.spec_active()
    &&& new.spec_tick() == old.spec_tick()
    &&& new.spec_levels() == old.spec_levels()
    &&& if addr == 0xe000 {
        &&& new.spec_silence() == ((value / 64) % 2 == 1)
        &&& if new.spec_silence() {
            &&& new.spec_reg_select() == 0
            &&& new.spec_patches() == Seq::new(8, |i: int| 0u8) + old.spec_patches().skip(8)
            &&& new.spec_channels() == old.spec_channels().map_values(
                |c: Channel| channel_reset(c, new.spec_patches()),
            )
            &&& new.spec_am().spec_counter() == 0 && new.spec_am().spec_index() == 0
        } else {
            &&& new.spec_reg_select() == old.spec_reg_select()
            &&& new.spec_patches() == old.spec_patches()
            &&& new.spec_channels() == old.spec_channels()
            &&& new.spec_am() == old.spec_am()
        }
    } else {
        let run = !old.spec_silence();
        let sel = old.spec_reg_select();
        &&& new.spec_silence() == old.spec_silence()
        &&& new.spec_am() == old.spec_am()
        &&& new.spec_reg_select() == if addr == 0x9010 && run { value } else { sel }
        &&& new.spec_patches() == if addr == 0x9030 && run && sel <= 7 {
            old.spec_patches().update(sel as int, value)
        } else {
            old.spec_patches()
        }
        &&& new.spec_channels() == if addr == 0x9030 && run && 0x10 <= sel <= 0x35 && sel % 16 <= 5 {
            old.spec_channels().update(
                (sel % 16) as int,
                old.spec_channels()[(sel % 16) as int].written(old.spec_patches(), (sel / 16 - 1) as u8, value),
            )
        } else {
            old.spec_channels()
        }
    }
}

/// One update, as `Sound::tick` makes it.
pub open spec fn sound_ticked(new: Sound, old: Sound) -> bool {
    let t: u64 = if old.spec_tick() + 1 == 36 { 0 } else { (old.spec_tick() + 1) as u64 };
    let a = (t / 6) as usize;
    &&& new.spec_tick() == t
    &&& new.spec_active() == a
    &&& new.spec_silence() == old.spec_silence()
    &&& new.spec_reg_select() == old.spec_reg_select()
    &&& new.spec_patches() == old.spec_patches()
    &&& if old.spec_silence() {
        &&& new.spec_am() == old.spec_am()
        &&& new.spec_fm() == old.spec_fm()
        &&& new.spec_channels() == old.spec_channels()
        &&& new.spec_levels() == old.spec_levels()
    } else {
        let am = if t == 0 { old.spec_am().ticked() } else { old.spec_am() };
        let fm = if t == 0 { old.spec_fm().ticked() } else { old.spec_fm() };
        let (c, level) = old.spec_channels()[a as int].ticked(am.spec_output(), fm);
        &&& new.spec_am() == am
        &&& new.spec_fm() == fm
        &&& new.spec_channels() == if t % 6 == 0 {
            old.spec_channels().update(a as int, c)
        } else {
            old.spec_channels()
        }
        &&& new.spec_levels() == if t % 6 == 0 {
            old.spec_levels().update(a as int, level)
        } else {
            old.spec_levels()
        }
    }
}

/// The VRC7's sound chip.
#[derive(Debug, Clone, Copy)]
pub struct Sound {
    silence: bool,
    reg_select: u8,
    patches: [u8; 128],
    am_unit: AmUnit,
    fm_unit: FmUnit,
    channels: [Channel; 6],
    active_channel: usize,
    tick: u64,
    output: [i16; 6],
    tables: LookupTables,
}

impl Sound {
    pub closed spec fn wf(&self) -> bool {
        &&& self.tables.wf()
        &&& self.am_unit.wf()
        &&& self.fm_unit.wf()
        &&& forall|i: int| 0 <= i < 6 ==> (#[trigger] self.channels@[i]).wf()
        &&& self.active_channel < 6
        &&& self.tick < 36
        &&& forall|i: int| 0 <= i < 6 ==> -4096 <= #[trigger] self.output@[i] <= 4095
    }

    /// Whether the chip is held silent (reset).
    pub closed spec fn spec_silence(&self) -> bool {
        self.silence
    }

    pub closed spec fn spec_reg_select(&self) -> u8 {
        self.reg_select
    }

    /// The custom patch and the fifteen built-in ones.
    pub closed spec fn spec_patches(&self) -> Seq<u8> {
        self.patches@
    }

    pub closed spec fn spec_am(&self) -> AmUnit {
        self.am_unit
    }

    pub closed spec fn spec_fm(&self) -> FmUnit {
        self.fm_unit
    }

    pub closed spec fn spec_channels(&self) -> Seq<Channel> {
        self.channels@
    }

    /// The channel whose level is heard: one at a time, each for six updates.
    pub closed spec fn spec_active(&self) -> usize {
        self.active_channel
    }

    /// The position in the 36-update cycle of the six channels.
    pub closed spec fn spec_tick(&self) -> u64 {
        self.tick
    }

    /// Each channel's last level.
    pub closed spec fn spec_levels(&self) -> Seq<i16> {
        self.output@
    }

    /// The sample the chip outputs: the middle of the range while silent,
    /// else the active channel's level times 16 above the middle, clamped to
    /// the non-negative i16 range.
    /// The board's sample is never negative: silence sits at the middle of
    /// the positive range and a channel's level is clamped into it.
    pub proof fn lemma_output_range(&self)
        requires
            self.wf(),
        ensures
            0 <= self.spec_output() <= 32767,
            self.spec_silence() ==> self.spec_output() == 16383,
    {
    }

    pub closed spec fn spec_output(&self) -> i16 {
        if self.silence {
            16383
        } else {
            let out = self.output@[self.active_channel as int] * 16 + 16383;
            if out > 32767 { 32767 } else if out < 0 { 0 } else { out as i16 }
        }
    }

    pub fn new() -> (r: Self)
        ensures
            r.wf(),
            r.spec_silence(),
            r.spec_reg_select() == 0,
            r.spec_patches() == PATCHES@,
            r.spec_am().spec_counter() == 0 && r.spec_am().spec_index() == 0,
            r.spec_fm() == FmUnit::new_spec(),
            r.spec_channels().len() == 6,
            forall|i: int| 0 <= i < 6 ==> #[trigger] r.spec_channels()[i] == r.spec_channels()[0],
            r.spec_channels()[0].spec_regs() == seq![0u8, 0, 0],
            r.spec_active() == 0,
            r.spec_tick() == 0,
            r.spec_levels() == seq![0i16, 0, 0, 0, 0, 0],
    {
        let c = Channel::new();
        let r = Sound {
            silence: true,
            reg_select: 0,
            patches: PATCHES,
            am_unit: AmUnit::new(),
            fm_unit: FmUnit::new(),
            channels: [c, c, c, c, c, c],
            active_channel: 0,
            tick: 0,
            output: [0; 6],
            tables: LookupTables::new(),
        };
        assert(r.output@ =~= seq![0i16, 0, 0, 0, 0, 0]);
        r
    }

    /// $E000 bit 6 holds the chip in reset, which clears the register
    /// select, the custom patch, the channels and the amplitude vibrato;
    /// while running, $9010 selects a register and $9030 writes it:
    /// $00-$07 the custom patch, $10-$15, $20-$25 and $30-$35 a channel's
    /// three registers.
    pub fn write(&mut self, addr: u16, value: u8)
        requires
            old(self).wf(),
        ensures
            final(self).wf(),
            sound_written(*final(self), *old(self), addr, value),
    {
        if addr == 0xe000 {
            self.silence = (value / 64) % 2 == 1;
            if self.silence {
                self.reg_select = 0;
                let mut i: usize = 0;
                while i < 8
                    invariant
                        i <= 8,
                        self.patches@ == Seq::new(i as nat, |j: int| 0u8) + old(self).patches@.skip(i as int),
                        self.channels == old(self).channels,
                        self.tables == old(self).tables,
                        self.output == old(self).output,
                        self.am_unit == old(self).am_unit,
                        self.fm_unit == old(self).fm_unit,
                        self.active_channel == old(self).active_channel,
                        self.tick == old(self).tick,
                        self.silence,
                        self.reg_select == 0,
                    decreases 8 - i,
                {
                    self.patches[i] = 0;
                    i += 1;
                    assert(self.patches@ =~= Seq::new(i as nat, |j: int| 0u8) + old(self).patches@.skip(i as int));
                }
                let mut k: usize = 0;
                while k < 6
                    invariant
                        k <= 6,
                        self.channels@.len() == 6,
                        forall|j: int| 0 <= j < k ==> #[trigger] self.channels@[j] == channel_reset(old(self).channels@[j], self.patches@),
                        forall|j: int| k <= j < 6 ==> #[trigger] self.channels@[j] == old(self).channels@[j],
                        forall|j: int| 0 <= j < 6 ==> (#[trigger] self.channels@[j]).wf(),
                        self.patches@ == Seq::new(8, |j: int| 0u8) + old(self).patches@.skip(8),
                        self.tables == old(self).tables,
                        self.output == old(self).output,
                        self.am_unit == old(self).am_unit,
                        self.fm_unit == old(self).fm_unit,
                        self.active_channel == old(self).active_channel,
                        self.tick == old(self).tick,
                        self.silence,
                        self.reg_select == 0,
                    decreases 6 - k,
                {
                    let mut c = self.channels[k];
                    c.reset(&self.patches);
                    self.channels[k] = c;
                    k += 1;
                }
                assert(self.channels@ =~= old(self).channels@.map_values(|c: Channel| channel_reset(c, self.patches@)));
                self.am_unit.reset();
            }
        } else if addr == 0x9010 && !self.silence {
            self.reg_select = value;
        } else if addr == 0x9030 && !self.silence {
            let sel = self.reg_select;
            if sel <= 7 {
                self.patches[sel as usize] = value;
            } else if 0x10 <= sel && sel <= 0x35 && sel % 16 <= 5 {
                let chan = (sel % 16) as usize;
                let mut c = self.channels[chan];
                c.write(&self.patches, sel / 16 - 1, value);
                self.channels[chan] = c;
            }
        }
    }

    /// One update: the 36-step cycle advances and selects the heard
    /// channel; while running, the vibrato units step at the start of the
    /// cycle and every sixth update the active channel produces its level.
    pub fn tick(&mut self)
        requires
            old(self).wf(),
        ensures
            final(self).wf(),
            sound_ticked(*final(self), *old(self)),
    {
        self.tick += 1;
        if self.tick == 36 {
            self.tick = 0;
        }
        self.active_channel = (self.tick / 6) as usize;

        if self.silence {
            return;
        }

        if self.tick == 0 {
            self.am_unit.tick();
            self.fm_unit.tick();
        }

        if self.tick % 6 == 0 {
            let a = self.active_channel;
            let am_out = self.am_unit.output();
            let mut c = self.channels[a];
            let level = c.tick(&self.tables, am_out, &self.fm_unit);
            self.channels[a] = c;
            self.output[a] = level;
        }
    }

    pub fn output(&self) -> (r: i16)
        requires
            self.wf(),
        ensures
            r == self.spec_output(),
    {
        if self.silence {
            return i16::MAX / 2;
        }
        let level = self.output[self.active_channel];
        let wide = level as i32;
        assert((wide << 4u32) == wide * 16) by (bit_vector)
            requires
                -4096 <= wide <= 4095,
        ;
        let out = (wide << 4) + (i16::MAX as i32 / 2);
        let clamped = if out > i16::MAX as i32 {
            i16::MAX as i32
        } else if out < 0 {
            0
        } else {
            out
        };
        clamped as i16
    }
}

} // verus!
