//! Arithmetic readings of the bit fields used throughout the hardware
//! registers, each proved once by bit-blasting.
use vstd::prelude::*;

verus! {

/// Masks and shifts of a register byte as divisions and remainders.
pub proof fn lemma_u8(v: u8)
    by (bit_vector)
    ensures
        v & 1 == v % 2,
        v & 3 == v % 4,
        v & 7 == v % 8,
        v & 0xf == v % 16,
        v & 0x1f == v % 32,
        v & 0x3f == v % 64,
        v & 0x7f == v % 0x80,
        (v & 0x01 != 0) == (v % 2 == 1),
        (v & 0x02 != 0) == ((v / 2) % 2 == 1),
        (v & 0x04 != 0) == ((v / 4) % 2 == 1),
        (v & 0x08 != 0) == ((v / 8) % 2 == 1),
        (v & 0x10 != 0) == ((v / 16) % 2 == 1),
        (v & 0x20 != 0) == ((v / 32) % 2 == 1),
        (v & 0x40 != 0) == ((v / 64) % 2 == 1),
        (v & 0x80 != 0) == (v >= 0x80),
        v >> 1u8 == v / 2,
        v >> 2u8 == v / 4,
        v >> 3u8 == v / 8,
        v >> 4u8 == v / 16,
        v >> 5u8 == v / 32,
        v >> 6u8 == v / 64,
        v >> 7u8 == v / 128,
        v >> 3u8 & 0x1f == v / 8,
        v >> 4u8 & 0x7 == (v / 16) % 8,
        v >> 6u8 & 3 == (v / 64) % 4,
        v & 0xff == v,
        v == 31 ==> v ^ 0x1f == 0,
        v == 0 ==> v ^ 0x1f == 31,
        (v as u16) & 0x3e <= 0x3e,
{
}

/// Two register bytes combined into a 16-bit value.
pub proof fn lemma_u8_pair(lo: u8, hi: u8)
    by (bit_vector)
    ensures
        (lo as u16) | ((hi as u16 & 7) << 8) == lo + (hi % 8) * 0x100,
        (lo as u16) | ((hi as u16 & 0xf) << 8) == lo + (hi % 16) * 0x100,
        (lo as u16) | ((hi as u16) << 8) == lo + hi * 0x100,
        ((hi as u16) << 8) | (lo as u16) == lo + hi * 0x100,
        ((hi as u16) << 6) | 0xc000 == 0xc000 + hi * 64,
        ((hi as u16) << 4) | 1 == hi * 16 + 1,
{
}

/// A 16-bit address split into bytes, and shifted right.
pub proof fn lemma_u16(p: u16)
    by (bit_vector)
    ensures
        p & 1 == p % 2,
        p & 0xff == p % 0x100,
        (p >> 8) & 0xff == p / 0x100,
        p >> 8 == p / 0x100,
        p & 0xff00 == (p / 0x100) * 0x100,
        p >> 0u16 == p,
        p >> 1u16 == p / 2,
        p >> 2u16 == p / 4,
        p >> 3u16 == p / 8,
        p >> 4u16 == p / 16,
        p >> 5u16 == p / 32,
        p >> 6u16 == p / 64,
        p >> 7u16 == p / 128,
        p & 0x3ff == p % 0x400,
        p & 0x7ff == p % 0x800,
        p & 0xfff == p % 0x1000,
        p & 0x1fff == p % 0x2000,
        p & 0x3fff == p % 0x4000,
        p & 0x7fff == p % 0x8000,
        p & 0x3f == p % 64,
        (p >> 10u16) & 0xf == (p / 0x400) % 16,
        (p >> 10u16) & 0x7 == (p / 0x400) % 8,
        (p >> 10u16) & 0x3 == (p / 0x400) % 4,
        (p >> 11u16) & 0x3 == (p / 0x800) % 4,
        (p >> 12u16) & 0x1 == (p / 0x1000) % 2,
        (p >> 13u16) & 0x3 == (p / 0x2000) % 4,
        (p >> 13u16) & 0x1 == (p / 0x2000) % 2,
        p & 0x3000 == 0x3000 ==> ((p & 0x2fff) >> 10u16) & 0xf < 12,
        p & 0x3000 != 0x3000 ==> (p >> 10u16) & 0xf < 12,
        p & 0x2000 != 0 ==> 8 <= (p & 0x2c00) / 0x400 < 12,
{
}

/// Replacing one byte of an address.
pub proof fn lemma_u16_u8(p: u16, d: u8)
    by (bit_vector)
    ensures
        (p & 0xff00) | (d as u16) == (p / 0x100) * 0x100 + d,
        (p & 0x00ff) | ((d as u16) << 8) == d * 0x100 + p % 0x100,
        p < 0x100 ==> (p | ((d as u16) << 8)) == d * 0x100 + p,
        p < 0x100 ==> (((d as u16) << 8) | p) == d * 0x100 + p,
        ((d as u16) << 8) == d * 0x100,
{
}

pub proof fn lemma_u64(c: u64)
    by (bit_vector)
    ensures
        c & 1 == c % 2,
        (c & 1 == 0) == (c % 2 == 0),
{
}

pub proof fn lemma_u32(c: u32)
    by (bit_vector)
    ensures
        c & 1 == c % 2,
        (c & 1 == 0) == (c % 2 == 0),
{
}

} // verus!

verus! {

/// A page number and an offset in the page, as an address.
pub proof fn lemma_u16_pair(addr: u16, off: u16)
    by (bit_vector)
    ensures
        (addr << 8u16) | (off & 0xff) == ((addr * 0x100) % 0x10000 + off % 0x100) as u16,
{
}

/// Powers of two used as ROM size units.
pub proof fn lemma_u128_shift(e: u128)
    by (bit_vector)
    ensures
        e < 64 ==> (1u128 << e) <= 0x8000_0000_0000_0000,
        e == 13 ==> (1u128 << e) == 0x2000,
        e == 14 ==> (1u128 << e) == 0x4000,
{
}

} // verus!

verus! {

/// The 4 KiB window number and low bits of an address.
pub proof fn lemma_u16_shift12(p: u16)
    by (bit_vector)
    ensures
        p >> 12u16 == p / 0x1000,
        p & 0x7 == p % 8,
        (p & 0x7fff) >> 12u16 == (p % 0x8000) / 0x1000,
        p >> 10u16 == p / 0x400,
        p >> 11u16 == p / 0x800,
        p >> 13u16 == p / 0x2000,
        p >> 14u16 == p / 0x4000,
{
}

} // verus!
