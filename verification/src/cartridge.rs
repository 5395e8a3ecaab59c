//! Cartridge images: the iNES / NES 2.0 and FDS file formats, parsed from
//! the raw bytes of a ROM file.
use vstd::prelude::*;

use crate::mapper::fds::sides_ok;
use crate::mapper::{board_of, built_from, ines_constructible, ines_usable, Mirroring, Nametable, RcMapper, SaveWram};
use crate::memory::RomBlock;
use vstd::arithmetic::power2::{lemma2_to64, lemma_pow2_strictly_increases, lemma_pow2_unfold, pow2};

verus! {

#[derive(Debug, Clone, Copy)]
pub enum CartridgeError {
    InvalidFileType,
    NotSupported,
    /// The image needs the named BIOS file.
    BiosRequired(&'static str),
    /// The file ended before the data its header announces.
    IoError,
}

#[derive(Debug, Copy, Clone, PartialEq, Eq, Structural)]
pub enum RomType {
    Ines,
    Fds,
    Unif,
}

#[derive(Debug, Copy, Clone, PartialEq, Eq, Structural)]
pub enum CartMirroring {
    Horizontal,
    Vertical,
}

impl CartMirroring {
    pub open spec fn spec_ppu_fetch(&self, address: u16) -> Nametable {
        if address & 0x2000 != 0 {
            match self {
                CartMirroring::Horizontal => if address & 0x800 != 0 {
                    Nametable::InternalA
                } else {
                    Nametable::InternalB
                },
                CartMirroring::Vertical => if address & 0x400 != 0 {
                    Nametable::InternalA
                } else {
                    Nametable::InternalB
                },
            }
        } else {
            Nametable::External
        }
    }

    /// Which nametable a PPU address selects: pattern-table addresses go to
    /// the cartridge, nametable addresses to one of the two internal pages.
    pub fn ppu_fetch(&self, address: u16) -> (r: Nametable)
        ensures
            r == self.spec_ppu_fetch(address),
    {
        if address & 0x2000 != 0 {
            match self {
                CartMirroring::Horizontal => {
                    if address & 0x800 != 0 {
                        Nametable::InternalA
                    } else {
                        Nametable::InternalB
                    }
                },
                CartMirroring::Vertical => {
                    if address & 0x400 != 0 {
                        Nametable::InternalA
                    } else {
                        Nametable::InternalB
                    }
                },
            }
        } else {
            Nametable::External
        }
    }

    pub open spec fn spec_into(self) -> Mirroring {
        match self {
            CartMirroring::Horizontal => Mirroring::Horizontal,
            CartMirroring::Vertical => Mirroring::Vertical,
        }
    }
}

impl From<CartMirroring> for Mirroring {
    fn from(value: CartMirroring) -> (r: Self) {
        match value {
            CartMirroring::Horizontal => Mirroring::Horizontal,
            CartMirroring::Vertical => Mirroring::Vertical,
        }
    }
}

impl vstd::std_specs::convert::FromSpecImpl<CartMirroring> for Mirroring {
    open spec fn obeys_from_spec() -> bool {
        true
    }

    open spec fn from_spec(v: CartMirroring) -> Self {
        v.spec_into()
    }
}

pub struct INes {
    pub chr_ram_bytes: usize,
    pub prg_ram_bytes: usize,
    pub prg_rom: RomBlock,
    pub chr_rom: RomBlock,
    pub mirroring: CartMirroring,
    pub alternative_mirroring: bool,
    pub mapper: u32,
    pub submapper: Option<u32>,
    pub wram: Option<SaveWram>,
    pub battery: bool,
}

pub struct Fds {
    pub disk_sides: Vec<Vec<u8>>,
    pub bios: Vec<u8>,
}

#[derive(Debug, Clone, Copy, PartialEq, Eq, Structural)]
pub enum CartridgeInfo {
    Cartridge,
    Fds { total_sides: usize },
}

pub enum Cartridge {
    INes(INes),
    Fds(Fds),
}

// ---------------------------------------------------------------------------
// The iNES / NES 2.0 header.

pub open spec fn magic_ines() -> Seq<u8> {
    seq![0x4eu8, 0x45, 0x53, 0x1a]
}

pub open spec fn magic_fds() -> Seq<u8> {
    seq![0x46u8, 0x44, 0x53, 0x1a]
}

pub open spec fn magic_unif() -> Seq<u8> {
    seq![0x55u8, 0x4e, 0x49, 0x46]
}

/// ASCII lower case.
pub open spec fn lower(b: u8) -> u8 {
    if 0x41 <= b <= 0x5a { (b + 0x20) as u8 } else { b }
}

/// The name ends in `.fds`, in any letter case.
pub open spec fn fds_extension(name: Seq<u8>) -> bool {
    let n = name.len() as int;
    &&& n >= 4
    &&& lower(name[n - 4]) == 0x2e
    &&& lower(name[n - 3]) == 0x66
    &&& lower(name[n - 2]) == 0x64
    &&& lower(name[n - 1]) == 0x73
}

/// The format a file is recognised as, from its first four bytes and name.
pub open spec fn rom_type(ident: Seq<u8>, name: Seq<u8>) -> Option<RomType> {
    if ident == magic_ines() {
        Some(RomType::Ines)
    } else if ident == magic_fds() || fds_extension(name) {
        Some(RomType::Fds)
    } else if ident == magic_unif() {
        Some(RomType::Unif)
    } else {
        None
    }
}

pub open spec fn is_nes2(h: Seq<u8>) -> bool {
    h[7] & 0xc == 0x8
}

/// A ROM size field: the low byte and high nibble give a count of
/// `2^unit_shift`-byte units, or with high nibble $F the low byte is an
/// exponent-multiplier pair `2^E * (2M + 1)`.
pub open spec fn rom_size(lo: u8, hi: u8, unit_shift: u128) -> int {
    if hi == 0xf {
        (1u128 << ((lo >> 2u8) as u128)) as int * ((lo & 3) * 2 + 1)
    } else {
        (lo + hi * 256) * (1u128 << unit_shift) as int
    }
}

pub open spec fn prg_hi(h: Seq<u8>) -> u8 {
    if is_nes2(h) { h[9] & 0xf } else { 0 }
}

pub open spec fn chr_hi(h: Seq<u8>) -> u8 {
    if is_nes2(h) { h[9] >> 4u8 } else { 0 }
}

pub open spec fn prg_rom_size(h: Seq<u8>) -> int {
    rom_size(h[4], prg_hi(h), 14)
}

pub open spec fn chr_rom_size(h: Seq<u8>) -> int {
    rom_size(h[5], chr_hi(h), 13)
}

/// A RAM size nibble: zero means none, otherwise `64 << n` bytes.
pub open spec fn ram_size(n: u8) -> int {
    if n == 0 { 0 } else { 64 * pow2(n as nat) as int }
}

pub open spec fn chr_ram_size(h: Seq<u8>) -> int {
    if is_nes2(h) {
        ram_size(h[11] & 0x0f)
    } else if chr_rom_size(h) == 0 {
        0x2000
    } else {
        0
    }
}

pub open spec fn mapper_number(h: Seq<u8>) -> u32 {
    let base = ((h[6] >> 4u8) | (h[7] & 0xf0)) as u32;
    if is_nes2(h) { (((h[8] & 0xf) as u32) * 256 + base) as u32 } else { base }
}

pub open spec fn submapper_number(h: Seq<u8>) -> Option<u32> {
    if is_nes2(h) { Some((h[8] >> 4u8) as u32) } else { None }
}

pub open spec fn has_trainer(h: Seq<u8>) -> bool {
    h[6] & 0x04 != 0
}

pub open spec fn has_battery(h: Seq<u8>) -> bool {
    h[6] & 0x02 != 0
}

pub open spec fn prg_ram_size(h: Seq<u8>) -> int {
    if is_nes2(h) && h[10] != 0 {
        ram_size(h[10] & 0xf) + ram_size(h[10] >> 4u8)
    } else if has_battery(h) {
        if mapper_number(h) == 5 { 64int * 1024 } else { 8int * 1024 }
    } else {
        0
    }
}

pub open spec fn header_mirroring(h: Seq<u8>) -> CartMirroring {
    if h[6] & 0x01 != 0 { CartMirroring::Vertical } else { CartMirroring::Horizontal }
}

/// Where the PRG ROM starts: after the header and the optional trainer.
pub open spec fn body_start(h: Seq<u8>) -> int {
    if has_trainer(h) { 16int + 512 } else { 16int }
}

/// The whole image is present.
pub open spec fn ines_complete(data: Seq<u8>) -> bool {
    let h = data.take(16);
    &&& data.len() >= 16
    &&& data.len() >= body_start(h) + prg_rom_size(h) + chr_rom_size(h)
}

/// The cartridge described by a complete iNES image.
pub open spec fn ines_matches(c: INes, data: Seq<u8>, wram: Option<Seq<u8>>) -> bool {
    let h = data.take(16);
    let start = body_start(h);
    let prg_end = start + prg_rom_size(h);
    &&& c.prg_rom@ == data.subrange(start, prg_end)
    &&& c.chr_rom@ == data.subrange(prg_end, prg_end + chr_rom_size(h))
    &&& c.chr_ram_bytes == chr_ram_size(h)
    &&& c.prg_ram_bytes == prg_ram_size(h)
    &&& c.mirroring == header_mirroring(h)
    &&& c.alternative_mirroring == (h[6] & 0x08 != 0)
    &&& c.mapper == mapper_number(h)
    &&& c.submapper == submapper_number(h)
    &&& c.battery == has_battery(h)
    &&& (if has_battery(h) {
        match (c.wram, wram) {
            (Some(w), Some(v)) => w@ == v,
            (None, None) => true,
            _ => false,
        }
    } else {
        c.wram is None
    })
}

// ---------------------------------------------------------------------------
// The FDS disk image: a sequence of 65500-byte sides, each a chain of
// blocks (type 1: 56 bytes, 2: 2 bytes, 3: 16 bytes, 4: the length from
// the preceding type-3 block plus one). The drive expects every block to
// be preceded by a gap and a start mark and followed by a CRC and a gap.

/// The disk bytes: the file without its optional 16-byte header.
pub open spec fn fds_payload(file: Seq<u8>) -> Seq<u8> {
    if file.len() >= 4 && file.take(4) == magic_fds() { file.skip(16) } else { file }
}

pub open spec fn zeros(n: nat) -> Seq<u8> {
    Seq::new(n, |i: int| 0u8)
}

/// The length of the block starting at `idx`, or `None` for the end of
/// the side.
pub open spec fn block_len(buf: Seq<u8>, idx: int) -> Option<int> {
    match buf[idx] {
        1 => Some(56int),
        2 => Some(2int),
        3 => Some(16int),
        4 => Some(1 + buf[idx - 3] + buf[idx - 2] * 0x100),
        _ => None,
    }
}

/// The gap-framed blocks of the side starting at `offset`, from position
/// `i` of the side on; `None` when a block runs past the data.
pub open spec fn side_blocks(buf: Seq<u8>, offset: int, i: int) -> Option<Seq<u8>>
    decreases (if i < 65500 { 65500 - i } else { 0int }),
{
    if i >= 65500 {
        Some(Seq::empty())
    } else {
        let idx = i + offset;
        if idx < 0 || idx >= buf.len() {
            None
        } else {
            match block_len(buf, idx) {
                None => Some(Seq::empty()),
                Some(l) => if buf[idx] == 4 && idx < 3 {
                    None
                } else if idx + l > buf.len() || l < 1 {
                    None
                } else {
                    match side_blocks(buf, offset, i + l) {
                        Some(rest) => Some(
                            seq![0x80u8] + buf.subrange(idx, idx + l) + seq![0x4du8, 0x62u8] + zeros(122)
                                + rest,
                        ),
                        None => None,
                    }
                },
            }
        }
    }
}

pub open spec fn num_sides(buf: Seq<u8>) -> int {
    buf.len() / 65500 + if buf.len() % 65500 == 0 { 0int } else { 1int }
}

/// Every side's block chain stays inside the data.
pub open spec fn fds_sides_ok(buf: Seq<u8>) -> bool {
    forall|k: int| 0 <= k < num_sides(buf) ==> #[trigger] side_blocks(buf, k * 65500, 0) is Some
}

/// A side as the drive sees it: a leading gap, the framed blocks, and
/// zero padding up to 65500 bytes.
pub open spec fn fds_side(buf: Seq<u8>, k: int) -> Seq<u8> {
    let s = zeros(3537) + side_blocks(buf, k * 65500, 0).unwrap();
    if s.len() < 65500 { s + zeros((65500 - s.len()) as nat) } else { s }
}

/// Parsing gets as far as the side loop: a BIOS was given, the header (if
/// any) is complete and the BIOS holds 8 KiB.
pub open spec fn fds_parse_needed(file: Seq<u8>, bios: Option<&[u8]>) -> bool {
    &&& bios is Some
    &&& !(file.len() >= 4 && file.take(4) == magic_fds() && file.len() < 16)
    &&& bios.unwrap()@.len() >= 8192
}

pub open spec fn fds_result(file: Seq<u8>, bios: Option<&[u8]>, r: Result<Cartridge, CartridgeError>) -> bool {
    match bios {
        None => r == Err::<Cartridge, CartridgeError>(CartridgeError::BiosRequired("disksys.rom")),
        Some(b) => if !fds_parse_needed(file, bios) {
            r == Err::<Cartridge, CartridgeError>(CartridgeError::IoError)
        } else {
            match r {
                Ok(Cartridge::Fds(f)) => {
                    let buf = fds_payload(file);
                    &&& f.bios@ == b@.take(8192)
                    &&& f.disk_sides@.len() == num_sides(buf)
                    &&& forall|k: int|
                        0 <= k < f.disk_sides@.len() ==> #[trigger] f.disk_sides@[k]@ == fds_side(buf, k)
                },
                _ => false,
            }
        },
    }
}

/// Builds one side from the blocks at `offset`.
fn build_side(buffer: &Vec<u8>, k: usize) -> (r: Vec<u8>)
    requires
        fds_sides_ok(buffer@),
        k < num_sides(buffer@),
    ensures
        r@ == fds_side(buffer@, k as int),
{
    assert(k * 65500 < buffer@.len()) by (nonlinear_arith)
        requires
            k < buffer@.len() / 65500 + if buffer@.len() % 65500 == 0 { 0int } else { 1int },
    ;
    let n = buffer.len();
    let offset = k * 65500;
    assert(side_blocks(buffer@, k * 65500, 0) is Some);
    let mut side: Vec<u8> = Vec::new();
    let mut z: usize = 0;
    while z < 3537
        invariant
            z <= 3537,
            side@ == zeros(z as nat),
        decreases 3537 - z,
    {
        side.push(0);
        z += 1;
        assert(side@ =~= zeros(z as nat));
    }
    let ghost total = side_blocks(buffer@, offset as int, 0).unwrap();
    let mut i: usize = 0;
    while i < 65500
        invariant_except_break
            n == buffer@.len(),
            i <= 65500 + 0x10000,
            side_blocks(buffer@, offset as int, i as int) is Some,
            zeros(3537) + total == side@ + side_blocks(buffer@, offset as int, i as int).unwrap(),
        ensures
            zeros(3537) + total == side@,
        decreases 65500 + 0x10000 - i,
    {
        let idx = i + offset;
        let block_type = buffer[idx];
        let block_len: usize = if block_type == 1 {
            56
        } else if block_type == 2 {
            2
        } else if block_type == 3 {
            16
        } else if block_type == 4 {
            1 + buffer[idx - 3] as usize + buffer[idx - 2] as usize * 0x100
        } else {
            assert(side_blocks(buffer@, offset as int, i as int).unwrap() =~= Seq::<u8>::empty());
            assert(zeros(3537) + total =~= side@);
            break;
        };

        let ghost before = side@;
        let ghost rest = side_blocks(buffer@, offset as int, (i + block_len) as int).unwrap();
        side.push(0x80);
        let mut j: usize = 0;
        while j < block_len
            invariant
                j <= block_len,
                n == buffer@.len(),
                idx + block_len <= buffer@.len(),
                side@ == before + seq![0x80u8] + buffer@.subrange(idx as int, (idx + j) as int),
            decreases block_len - j,
        {
            side.push(buffer[idx + j]);
            j += 1;
            assert(side@ =~= before + seq![0x80u8] + buffer@.subrange(idx as int, (idx + j) as int));
        }
        side.push(0x4d);
        side.push(0x62);
        let mut g: usize = 0;
        let ghost mid = side@;
        while g < 122
            invariant
                g <= 122,
                side@ == mid + zeros(g as nat),
            decreases 122 - g,
        {
            side.push(0);
            g += 1;
            assert(side@ =~= mid + zeros(g as nat));
        }
        assert(side@ + rest =~= before + (seq![0x80u8] + buffer@.subrange(idx as int, (idx + block_len) as int)
            + seq![0x4du8, 0x62u8] + zeros(122) + rest));
        i += block_len;
    }

    if side.len() < 65500 {
        let ghost s0 = side@;
        while side.len() < 65500
            invariant
                s0.len() < 65500,
                side@.len() <= 65500,
                side@ == s0 + zeros((side@.len() - s0.len()) as nat),
            decreases 65500 - side@.len(),
        {
            side.push(0);
            assert(side@ =~= s0 + zeros((side@.len() - s0.len()) as nat));
        }
    }
    side
}

/// Copies `len` bytes from `start`.
fn copy_range(data: &[u8], start: usize, len: usize) -> (r: Vec<u8>)
    requires
        start + len <= data@.len(),
    ensures
        r@ == data@.subrange(start as int, start + len),
{
    let mut out: Vec<u8> = Vec::new();
    let n = data.len();
    let mut i: usize = 0;
    while i < len
        invariant
            i <= len,
            n == data@.len(),
            start + len <= data@.len(),
            out@ == data@.subrange(start as int, start + i),
        decreases len - i,
    {
        out.push(data[start + i]);
        i += 1;
        assert(out@ =~= data@.subrange(start as int, start + i));
    }
    out
}

/// A ROM size field in bytes, or `None` when it cannot be a real size.
fn rom_size_exec(lo: u8, hi: u8, unit_shift: u128) -> (r: u128)
    requires
        hi <= 0xf,
        unit_shift == 13 || unit_shift == 14,
    ensures
        r == rom_size(lo, hi, unit_shift),
{
    if hi == 0xf {
        proof { crate::bits::lemma_u8(lo); }
        let m = lo & 3;
        let mul = (m * 2 + 1) as u128;
        let exp = (lo >> 2) as u128;
        proof { crate::bits::lemma_u128_shift(exp); }
        let p = 1u128 << exp;
        assert(p * mul <= 0x8000_0000_0000_0000 * 7) by (nonlinear_arith)
            requires p <= 0x8000_0000_0000_0000, mul <= 7;
        p * mul
    } else {
        let units = lo as u128 + (hi as u128) * 256;
        assert(units <= 0xffff);
        proof { crate::bits::lemma_u128_shift(unit_shift); }
        let p = 1u128 << unit_shift;
        assert(units * p <= 0xffff * 0x4000) by (nonlinear_arith)
            requires units <= 0xffff, p <= 0x4000;
        units * p
    }
}

fn ram_size_exec(n: u8) -> (r: usize)
    requires
        n <= 0xf,
    ensures
        r == ram_size(n),
        r <= 64 * 0x8000,
{
    if n == 0 {
        0
    } else {
        proof {
            lemma2_to64();
        }
        let mut v: usize = 64;
        let mut k: u8 = 0;
        while k < n
            invariant
                k <= n,
                n <= 0xf,
                v == 64 * pow2(k as nat),
                v <= 64 * 0x8000,
            decreases n - k,
        {
            proof {
                lemma_pow2_unfold((k + 1) as nat);
                lemma2_to64();
                if k + 1 < 15 {
                    lemma_pow2_strictly_increases((k + 1) as nat, 15);
                }
            }
            v = v * 2;
            k += 1;
        }
        proof {
            lemma2_to64();
        }
        v
    }
}

/// Whether the block chain of the side starting at `offset` stays inside
/// the data.
fn side_valid(buf: &Vec<u8>, offset: usize) -> (r: bool)
    requires
        offset < buf@.len(),
    ensures
        r == (side_blocks(buf@, offset as int, 0) is Some),
{
    let n = buf.len();
    let mut i: usize = 0;
    while i < 65500
        invariant
            n == buf@.len(),
            offset < n,
            (side_blocks(buf@, offset as int, 0) is Some) == (side_blocks(buf@, offset as int, i as int) is Some),
            i <= 131072,
        decreases 131072 - i,
    {
        if i >= n - offset {
            return false;
        }
        let idx = i + offset;
        let kind = buf[idx];
        let l: usize = if kind == 1 {
            56
        } else if kind == 2 {
            2
        } else if kind == 3 {
            16
        } else if kind == 4 {
            if idx < 3 {
                return false;
            }
            1 + buf[idx - 3] as usize + buf[idx - 2] as usize * 0x100
        } else {
            return true;
        };
        assert(block_len(buf@, idx as int) == Some(l as int));
        if l > n - idx {
            return false;
        }
        i = i + l;
    }
    true
}

/// Whether every side of a disk image (the file, without its 16-byte
/// header when it has one) has a block chain that stays inside the data:
/// what loading the image needs. A header without the 16 bytes it
/// promises is no image.
pub fn fds_sides_valid(file: &[u8]) -> (r: bool)
    ensures
        !(file@.len() >= 4 && file@.take(4) == magic_fds() && file@.len() < 16) ==> r == fds_sides_ok(
            fds_payload(file@),
        ),
{
    let has_header = file.len() >= 4 && file[0] == 0x46 && file[1] == 0x44 && file[2] == 0x53 && file[3]
        == 0x1a;
    proof {
        if file@.len() >= 4 {
            if has_header {
                assert(file@.take(4) =~= magic_fds());
            } else if file@.take(4) == magic_fds() {
                assert(file@.take(4)[0] == 0x46);
                assert(file@.take(4)[1] == 0x44);
                assert(file@.take(4)[2] == 0x53);
                assert(file@.take(4)[3] == 0x1a);
            }
        }
    }
    let start: usize = if has_header {
        if file.len() < 16 {
            return false;
        }
        16
    } else {
        0
    };
    let buffer = copy_range(file, start, file.len() - start);
    assert(buffer@ =~= fds_payload(file@));
    let sides: usize = if buffer.len() % 65500 == 0 {
        buffer.len() / 65500
    } else {
        buffer.len() / 65500 + 1
    };
    let mut k: usize = 0;
    let mut off: usize = 0;
    while k < sides
        invariant
            sides == num_sides(buffer@),
            k <= sides,
            k < sides ==> off == k * 65500,
            buffer@ == fds_payload(file@),
            forall|j: int| 0 <= j < k ==> #[trigger] side_blocks(buffer@, j * 65500, 0) is Some,
        decreases sides - k,
    {
        let ghost len = buffer@.len() as int;
        assert(k * 65500 < len && (k + 1 < sides ==> (k + 1) * 65500 < len)) by (nonlinear_arith)
            requires
                k < sides,
                len >= 0,
                sides == len / 65500 + if len % 65500 == 0 { 0int } else { 1int },
        ;
        if !side_valid(&buffer, off) {
            assert(!(side_blocks(buffer@, k * 65500, 0) is Some));
            assert(!fds_sides_ok(buffer@));
            assert(fds_payload(file@) == buffer@);
            return false;
        }
        if k + 1 < sides {
            assert(buffer@.len() == buffer.len());
            assert(off + 65500 == (k + 1) * 65500);
            off = off + 65500;
        }
        k += 1;
    }
    true
}

impl Cartridge {
    /// Recognises and parses a ROM file. A name is only consulted when the
    /// data does not start with the iNES magic.
    pub fn load(file: &[u8], wram: Option<SaveWram>, bios: Option<&[u8]>, file_name: &[u8]) -> (r: Result<
        Cartridge,
        CartridgeError,
    >)
        requires
            file@.len() < 4 || file@.take(4) == magic_ines() || file_name@.len() >= 4,
            file@.len() >= 4 && rom_type(file@.take(4), file_name@) == Some(RomType::Fds)
                && fds_parse_needed(file@, bios) ==> fds_sides_ok(fds_payload(file@)),
        ensures
            file@.len() < 4 ==> r == Err::<Cartridge, CartridgeError>(CartridgeError::IoError),
            file@.len() >= 4 ==> match rom_type(file@.take(4), file_name@) {
                Some(RomType::Ines) => match r {
                    Ok(Cartridge::INes(c)) => ines_complete(file@) && ines_matches(
                        c,
                        file@,
                        match wram {
                            Some(w) => Some(w@),
                            None => None,
                        },
                    ),
                    Ok(Cartridge::Fds(_)) => false,
                    Err(e) => e == CartridgeError::IoError && !ines_complete(file@),
                },
                Some(RomType::Fds) => fds_result(file@, bios, r),
                Some(RomType::Unif) => r == Err::<Cartridge, CartridgeError>(CartridgeError::NotSupported),
                None => r == Err::<Cartridge, CartridgeError>(CartridgeError::InvalidFileType),
            },
    {
        if file.len() < 4 {
            return Err(CartridgeError::IoError);
        }
        let ident = copy_range(file, 0, 4);
        proof {
            assert(ident@ =~= file@.take(4));
        }

        match Cartridge::get_rom_type(&ident, file_name) {
            Some(RomType::Ines) => Cartridge::load_ines(file, wram),
            Some(RomType::Fds) => Cartridge::load_fds(file, bios),
            Some(RomType::Unif) => Cartridge::load_unif(file),
            None => Err(CartridgeError::InvalidFileType),
        }
    }

    fn load_ines(file: &[u8], wram: Option<SaveWram>) -> (r: Result<Cartridge, CartridgeError>)
        ensures
            match r {
                Ok(Cartridge::INes(c)) => ines_complete(file@) && ines_matches(
                    c,
                    file@,
                    match wram {
                        Some(w) => Some(w@),
                        None => None,
                    },
                ),
                Ok(Cartridge::Fds(_)) => false,
                Err(e) => e == CartridgeError::IoError && !ines_complete(file@),
            },
    {
        if file.len() < 16 {
            return Err(CartridgeError::IoError);
        }
        let header = copy_range(file, 0, 16);
        let ghost h = file@.take(16);
        assert(header@ =~= h);

        let h4 = header[4];
        let h5 = header[5];
        let h6 = header[6];
        let h7 = header[7];
        let h8 = header[8];
        let h9 = header[9];
        let h10 = header[10];
        let h11 = header[11];

        let nes_2 = h7 & 0xc == 0x8;

        let prg_hi: u8 = if nes_2 { h9 & 0xf } else { 0 };
        proof { crate::bits::lemma_u8(h9); crate::bits::lemma_u8(h8); crate::bits::lemma_u8(h10); crate::bits::lemma_u8(h11); }
        let prg_rom_bytes = rom_size_exec(h4, prg_hi, 14);

        let chr_hi: u8 = if nes_2 { h9 >> 4 } else { 0 };

        let chr_rom_bytes = rom_size_exec(h5, chr_hi, 13);

        let chr_ram_bytes: usize = if nes_2 {

            ram_size_exec(h11 & 0x0f)
        } else {
            if chr_rom_bytes == 0 {
                0x2000
            } else {
                0
            }
        };

        let base_mapper = ((h6 >> 4) | (h7 & 0xF0)) as u32;

        let (mapper, submapper) = if nes_2 {
            let mapper_hi = (h8 & 0xf) as u32;

            let mapper = mapper_hi * 256 + base_mapper;
            let submapper = (h8 >> 4) as u32;
            (mapper, Some(submapper))
        } else {
            (base_mapper, None)
        };

        let start: usize = if h6 & 0x04 != 0 {
            16 + 512
        } else {
            16
        };

        let alternative_mirroring = h6 & 0x08 != 0;
        let mirroring = if h6 & 0x01 != 0 {
            CartMirroring::Vertical
        } else {
            CartMirroring::Horizontal
        };

        let mut prg_ram_bytes: usize = 0;
        let mut battery = false;
        let mut wram = wram;
        if h6 & 0x02 != 0 {
            battery = true;
            if mapper == 5 {
                prg_ram_bytes = 64 * 1024;
            } else {
                prg_ram_bytes = 8 * 1024;
            }
        } else {
            wram = None;
        }

        if nes_2 && h10 != 0 {

            let volatile = ram_size_exec(h10 & 0xf);
            let non_volatile = ram_size_exec(h10 >> 4);
            prg_ram_bytes = volatile + non_volatile;
        }

        if file.len() < start {
            return Err(CartridgeError::IoError);
        }
        let available = (file.len() - start) as u128;
        if prg_rom_bytes > available || chr_rom_bytes > available - prg_rom_bytes {
            return Err(CartridgeError::IoError);
        }
        let prg_len = prg_rom_bytes as usize;
        let chr_len = chr_rom_bytes as usize;

        let prg_rom = copy_range(file, start, prg_len);
        let chr_rom = copy_range(file, start + prg_len, chr_len);

        let cartridge = INes {
            chr_ram_bytes,
            prg_ram_bytes,
            prg_rom: RomBlock::new(prg_rom),
            chr_rom: RomBlock::new(chr_rom),
            mirroring,
            alternative_mirroring,
            mapper,
            submapper,
            wram,
            battery,
        };
        Ok(Cartridge::INes(cartridge))
    }

    fn load_fds(file: &[u8], bios: Option<&[u8]>) -> (r: Result<Cartridge, CartridgeError>)
        requires
            fds_parse_needed(file@, bios) ==> fds_sides_ok(fds_payload(file@)),
        ensures
            fds_result(file@, bios, r),
    {
        let bios_rom = match bios {
            Some(b) => b,
            None => {
                return Err(CartridgeError::BiosRequired("disksys.rom"));
            },
        };

        let has_header = file.len() >= 4 && file[0] == 0x46 && file[1] == 0x44 && file[2] == 0x53
            && file[3] == 0x1a;
        proof {
            if file@.len() >= 4 {
                if has_header {
                    assert(file@.take(4) =~= magic_fds());
                } else if file@.take(4) == magic_fds() {
                    assert(file@.take(4)[0] == 0x46);
                    assert(file@.take(4)[1] == 0x44);
                    assert(file@.take(4)[2] == 0x53);
                    assert(file@.take(4)[3] == 0x1a);
                }
            }
        }
        let start: usize = if has_header {
            if file.len() < 16 {
                return Err(CartridgeError::IoError);
            }
            16
        } else {
            0
        };
        let buffer = copy_range(file, start, file.len() - start);
        assert(buffer@ =~= fds_payload(file@));

        if bios_rom.len() < 1024 * 8 {
            return Err(CartridgeError::IoError);
        }
        let bios = copy_range(bios_rom, 0, 1024 * 8);

        let mut disk_sides: Vec<Vec<u8>> = Vec::new();
        let sides: usize = if buffer.len() % 65500 == 0 {
            buffer.len() / 65500
        } else {
            buffer.len() / 65500 + 1
        };
        let mut k: usize = 0;
        while k < sides
            invariant
                sides == num_sides(buffer@),
                fds_sides_ok(buffer@),
                k <= num_sides(buffer@),
                disk_sides@.len() == k,
                forall|j: int| 0 <= j < k ==> #[trigger] disk_sides@[j]@ == fds_side(buffer@, j),
            decreases num_sides(buffer@) - k,
        {
            let side = build_side(&buffer, k);
            disk_sides.push(side);
            k += 1;
        }

        let fds = Fds { disk_sides, bios };

        Ok(Cartridge::Fds(fds))
    }

    fn load_unif(_file: &[u8]) -> (r: Result<Cartridge, CartridgeError>)
        ensures
            r == Err::<Cartridge, CartridgeError>(CartridgeError::NotSupported),
    {
        Err(CartridgeError::NotSupported)
    }

    fn get_rom_type(rom: &Vec<u8>, file_name: &[u8]) -> (r: Option<RomType>)
        requires
            rom@.len() == 4,
            rom@ == magic_ines() || file_name@.len() >= 4,
        ensures
            r == rom_type(rom@, file_name@),
    {
        if rom[0] == 0x4e && rom[1] == 0x45 && rom[2] == 0x53 && rom[3] == 0x1a {
            assert(rom@ =~= magic_ines());
            return Some(RomType::Ines);
        }
        assert(rom@ != magic_ines());

        let n = file_name.len();
        let is_fds_ext = lower_exec(file_name[n - 4]) == 0x2e && lower_exec(file_name[n - 3]) == 0x66
            && lower_exec(file_name[n - 2]) == 0x64 && lower_exec(file_name[n - 1]) == 0x73;
        let is_fds_magic = rom[0] == 0x46 && rom[1] == 0x44 && rom[2] == 0x53 && rom[3] == 0x1a;
        if is_fds_magic {
            assert(rom@ =~= magic_fds());
        } else {
            assert(rom@ != magic_fds()) by {
                if rom@ == magic_fds() {
                    assert(rom@[0] == 0x46 && rom@[1] == 0x44 && rom@[2] == 0x53 && rom@[3] == 0x1a);
                }
            }
        }
        if is_fds_magic || is_fds_ext {
            return Some(RomType::Fds);
        }

        if rom[0] == 0x55 && rom[1] == 0x4e && rom[2] == 0x49 && rom[3] == 0x46 {
            assert(rom@ =~= magic_unif());
            return Some(RomType::Unif);
        }
        assert(rom@ != magic_unif()) by {
            if rom@ == magic_unif() {
                assert(rom@[0] == 0x55 && rom@[1] == 0x4e && rom@[2] == 0x49 && rom@[3] == 0x46);
            }
        }

        None
    }

    /// The board for this medium: the iNES mapper's, or the disk system.
    pub fn build_mapper(self) -> (r: RcMapper)
        requires
            self matches Cartridge::INes(c) ==> ines_constructible(&c),
        ensures
            match self {
                Cartridge::INes(c) => r.board_number() == board_of(&c) && built_from(r, &c) && (ines_usable(&c)
                    ==> r.wf()),
                Cartridge::Fds(f) => r.board_number() == 20 && (r.0 matches crate::mapper::Board::Fds(b)
                    && b.powered_on(f)) && ((f.bios@.len() >= 0x2000
                    && f.disk_sides@.len() > 0 && sides_ok(f.disk_sides@)) ==> r.wf()),
            },
    {
        match self {
            Cartridge::INes(ines) => crate::mapper::ines(ines),
            Cartridge::Fds(fds) => crate::mapper::fds(fds),
        }
    }

    /// What kind of medium this is, and for disks how many sides.
    pub fn info(&self) -> (r: CartridgeInfo)
        ensures
            r == match self {
                Cartridge::INes(_) => CartridgeInfo::Cartridge,
                Cartridge::Fds(fds) => CartridgeInfo::Fds { total_sides: fds.disk_sides@.len() as usize },
            },
    {
        match self {
            Cartridge::INes(_) => CartridgeInfo::Cartridge,
            Cartridge::Fds(fds) => CartridgeInfo::Fds { total_sides: fds.disk_sides.len() },
        }
    }
}

fn lower_exec(b: u8) -> (r: u8)
    ensures
        r == lower(b),
{
    if b >= 0x41 && b <= 0x5a {
        b + 0x20
    } else {
        b
    }
}

/// A NES 2.0 header with a nonzero byte 10 codes the PRG RAM in both of
/// its nibbles: the low one the volatile RAM, the high one the battery-
/// backed RAM, each zero for none or `64 << n` bytes; the board gets both.
/// Byte 10 = $70, 8 KiB of battery-backed RAM only, gives 8192 bytes.
pub proof fn lemma_nes2_prg_ram(h: Seq<u8>)
    requires
        is_nes2(h),
        h[10] != 0,
    ensures
        prg_ram_size(h) == (if h[10] % 16 == 0 { 0 } else { 64 * pow2((h[10] % 16) as nat) }) + (if h[10]
            / 16 == 0 {
            0
        } else {
            64 * pow2((h[10] / 16) as nat)
        }),
        h[10] == 0x70 ==> prg_ram_size(h) == 8192,
{
    let b = h[10];
    assert((b & 0xf) == b % 16 && (b >> 4u8) == b / 16) by (bit_vector);
    if b == 0x70 {
        vstd::arithmetic::power2::lemma2_to64();
        assert(b % 16 == 0 && b / 16 == 7);
    }
}

} // verus!
