//! Byte-addressed memories: writable RAM blocks, read-only ROM blocks and
//! banked access where a bank number selects a power-of-two sized window.
use vstd::prelude::*;

use crate::mapper::SaveWram;

verus! {

/// `n` is a power of two that fits in a `usize`.
pub open spec fn is_pow2(n: usize) -> bool {
    exists|k: u32| k < usize::BITS && n == (1usize << k)
}

/// The exponent of a power of two.
pub open spec fn log2(n: usize) -> u32 {
    choose|k: u32| k < usize::BITS && n == (1usize << k)
}

/// The absolute address reached by offset `addr` inside bank `bank` of
/// size `bank_size`: the bank number shifted above the offset bits.
pub open spec fn mapped_address(bank: usize, bank_size: usize, addr: u16) -> usize {
    (bank << log2(bank_size)) | ((addr as usize) & ((bank_size - 1) as usize))
}

proof fn lemma_shift_injective(j: u32, k: u32)
    requires
        j < usize::BITS,
        k < usize::BITS,
        j != k,
    ensures
        (1usize << j) != (1usize << k),
{
    assert(j < usize::BITS && k < usize::BITS && j != k ==> (1usize << j) != (1usize << k))
        by (bit_vector);
}

/// The bank sizes the boards use are powers of two.
pub proof fn lemma_bank_sizes()
    ensures
        is_pow2(0x400),
        is_pow2(0x800),
        is_pow2(0x1000),
        is_pow2(0x2000),
        is_pow2(0x4000),
        is_pow2(0x8000),
{
    assert((1usize << 10u32) == 0x400 && (1usize << 11u32) == 0x800 && (1usize << 12u32) == 0x1000
        && (1usize << 13u32) == 0x2000 && (1usize << 14u32) == 0x4000 && (1usize << 15u32) == 0x8000)
        by (bit_vector);
    assert(10u32 < usize::BITS && 15u32 < usize::BITS);
}

/// Finds the exponent of a power-of-two bank size.
fn bank_shift(bank_size: usize) -> (k: u32)
    requires
        is_pow2(bank_size),
    ensures
        k == log2(bank_size),
        k < usize::BITS,
        bank_size == (1usize << k),
        bank_size >= 1,
{
    let ghost w = choose|k: u32| k < usize::BITS && bank_size == (1usize << k);
    let mut k: u32 = 0;
    while k < usize::BITS && (1usize << k) != bank_size
        invariant
            w < usize::BITS,
            bank_size == (1usize << w),
            k <= w,
        decreases usize::BITS - k,
    {
        k += 1;
        proof {
            if k > w {
                assert(false);
            }
        }
    }
    proof {
        if k != w {
            lemma_shift_injective(k, w);
        }
        assert(k < usize::BITS ==> (1usize << k) >= 1) by (bit_vector);
        let c = log2(bank_size);
        if c != w {
            lemma_shift_injective(c, w);
        }
    }
    k
}

/// A byte-addressed memory. Addresses wrap modulo the size.
pub trait Memory {
    spec fn mem(&self) -> Seq<u8>;

    /// Contents after writing `value` at `address`.
    spec fn written(&self, address: usize, value: u8) -> Seq<u8>;

    fn len(&self) -> (r: usize)
        ensures
            r == self.mem().len(),
    ;

    fn is_empty(&self) -> (r: bool)
        ensures
            r == (self.mem().len() == 0),
    {
        self.len() == 0
    }

    fn read(&self, address: usize) -> (r: u8)
        requires
            self.mem().len() > 0,
        ensures
            r == self.mem()[(address as int) % (self.mem().len() as int)],
    ;

    fn write(&mut self, address: usize, value: u8)
        requires
            old(self).mem().len() > 0,
        ensures
            final(self).mem() == old(self).written(address, value),
    ;

    fn read_mapped(&self, bank: usize, bank_size: usize, addr: u16) -> (r: u8)
        requires
            self.mem().len() > 0,
            is_pow2(bank_size),
        ensures
            r == self.mem()[(mapped_address(bank, bank_size, addr) as int) % (self.mem().len() as int)],
    {
        let shift = bank_shift(bank_size);
        let low_addr = (addr as usize) & (bank_size - 1);
        let high_addr = bank << shift;
        let full_addr = high_addr | low_addr;

        self.read(full_addr)
    }

    fn write_mapped(&mut self, bank: usize, bank_size: usize, addr: u16, value: u8)
        requires
            old(self).mem().len() > 0,
            is_pow2(bank_size),
        ensures
            final(self).mem() == old(self).written(mapped_address(bank, bank_size, addr), value),
    {
        let shift = bank_shift(bank_size);
        let low_addr = (addr as usize) & (bank_size - 1);
        let high_addr = bank << shift;
        let full_addr = high_addr | low_addr;

        self.write(full_addr, value)
    }
}

/// Writable memory.
#[derive(Debug, Clone)]
pub struct MemoryBlock {
    mem: Vec<u8>,
}

impl View for MemoryBlock {
    type V = Seq<u8>;

    closed spec fn view(&self) -> Seq<u8> {
        self.mem@
    }
}

impl MemoryBlock {
    /// `kb` kilobytes of zeroed memory.
    pub fn new(kb: usize) -> (r: MemoryBlock)
        requires
            kb * 1024 <= usize::MAX,
        ensures
            r@ == Seq::new((kb * 1024) as nat, |i: int| 0u8),
    {
        let n: usize = kb * 1024;
        let mut mem: Vec<u8> = Vec::new();
        let mut i: usize = 0;
        while i < n
            invariant
                i <= n,
                mem@ == Seq::new(i as nat, |j: int| 0u8),
            decreases n - i,
        {
            mem.push(0);
            i += 1;
        }
        MemoryBlock { mem }
    }

    pub fn save_wram(&self) -> (r: Option<SaveWram>)
        ensures
            r matches Some(w) && w@ == self@,
    {
        Some(SaveWram::from_bytes(self.mem.clone()))
    }

    /// Copies the saved bytes over the start of the block; the shorter of
    /// the two decides how many bytes are copied.
    pub fn restore_wram(&mut self, wram: SaveWram)
        ensures
            final(self)@.len() == old(self)@.len(),
            forall|i: int|
                0 <= i < old(self)@.len() ==> #[trigger] final(self)@[i] == if i < wram@.len() {
                    wram@[i]
                } else {
                    old(self)@[i]
                },
    {
        let data = wram.to_bytes();
        let mut i: usize = 0;
        while i < self.mem.len() && i < data.len()
            invariant
                i <= self.mem.len(),
                self.mem@.len() == old(self).mem@.len(),
                forall|j: int|
                    0 <= j < self.mem@.len() ==> #[trigger] self.mem@[j] == if j < i {
                        data@[j]
                    } else {
                        old(self).mem@[j]
                    },
                i <= data@.len(),
            decreases self.mem.len() - i,
        {
            self.mem.set(i, data[i]);
            i += 1;
        }
    }
}

impl Memory for MemoryBlock {
    open spec fn mem(&self) -> Seq<u8> {
        self@
    }

    open spec fn written(&self, address: usize, value: u8) -> Seq<u8> {
        self@.update((address as int) % (self@.len() as int), value)
    }

    fn len(&self) -> (r: usize) {
        self.mem.len()
    }

    fn read(&self, address: usize) -> (r: u8) {
        let address = address % self.mem.len();
        self.mem[address]
    }

    fn write(&mut self, address: usize, value: u8) {
        let address = address % self.mem.len();
        self.mem.set(address, value);
    }
}

/// Read-only memory; writes are ignored.
pub struct RomBlock {
    rom: Vec<u8>,
}

impl View for RomBlock {
    type V = Seq<u8>;

    closed spec fn view(&self) -> Seq<u8> {
        self.rom@
    }
}

impl RomBlock {
    pub fn new(rom: Vec<u8>) -> (r: RomBlock)
        ensures
            r@ == rom@,
    {
        RomBlock { rom }
    }
}

impl Memory for RomBlock {
    open spec fn mem(&self) -> Seq<u8> {
        self@
    }

    open spec fn written(&self, address: usize, value: u8) -> Seq<u8> {
        self@
    }

    fn len(&self) -> (r: usize) {
        self.rom.len()
    }

    fn read(&self, address: usize) -> (r: u8) {
        let address = address % self.rom.len();
        self.rom[address]
    }

    fn write(&mut self, _address: usize, _value: u8) {
    }
}

/// `N` kilobytes of RAM addressed by a 16-bit address that wraps modulo the size.
#[derive(Debug, Clone)]
pub struct FixedMemoryBlock<const N: usize> {
    mem: Vec<u8>,
}

impl<const N: usize> View for FixedMemoryBlock<N> {
    type V = Seq<u8>;

    closed spec fn view(&self) -> Seq<u8> {
        self.mem@
    }
}

impl<const N: usize> FixedMemoryBlock<N> {
    pub open spec fn wf(&self) -> bool {
        &&& 0 < N <= 64
        &&& self@.len() == N * 1024
    }

    pub fn new() -> (r: Self)
        requires
            0 < N <= 64,
        ensures
            r.wf(),
            r@ == Seq::new((N * 1024) as nat, |i: int| 0u8),
    {
        let n: usize = N * 1024;
        let mut mem: Vec<u8> = Vec::new();
        let mut i: usize = 0;
        while i < n
            invariant
                i <= n,
                n == N * 1024,
                mem@ == Seq::new(i as nat, |j: int| 0u8),
            decreases n - i,
        {
            mem.push(0);
            i += 1;
        }
        FixedMemoryBlock { mem }
    }

    pub fn save_wram(&self) -> (r: Option<SaveWram>)
        ensures
            r matches Some(w) && w@ == self@,
    {
        Some(SaveWram::from_bytes(self.mem.clone()))
    }

    /// Copies the saved bytes over the start of the block.
    pub fn restore_wram(&mut self, wram: SaveWram)
        requires
            old(self).wf(),
        ensures
            final(self).wf(),
            forall|i: int|
                0 <= i < old(self)@.len() ==> #[trigger] final(self)@[i] == if i < wram@.len() {
                    wram@[i]
                } else {
                    old(self)@[i]
                },
    {
        let data = wram.to_bytes();
        let mut i: usize = 0;
        while i < self.mem.len() && i < data.len()
            invariant
                i <= self.mem.len(),
                self.mem@.len() == old(self).mem@.len(),
                forall|j: int|
                    0 <= j < self.mem@.len() ==> #[trigger] self.mem@[j] == if j < i {
                        data@[j]
                    } else {
                        old(self).mem@[j]
                    },
                i <= data@.len(),
            decreases self.mem.len() - i,
        {
            self.mem.set(i, data[i]);
            i += 1;
        }
    }

    pub fn read(&self, addr: u16) -> (r: u8)
        requires
            self.wf(),
        ensures
            r == self@[(addr as int) % (N * 1024) as int],
            r == self.mem()[(addr as int) % (self.mem().len() as int)],
    {
        let idx = (addr as usize) % self.mem.len();
        self.mem[idx]
    }

    pub fn write(&mut self, addr: u16, value: u8)
        requires
            old(self).wf(),
        ensures
            final(self).wf(),
            final(self)@ == old(self)@.update((addr as int) % (N * 1024) as int, value),
    {
        let idx = (addr as usize) % self.mem.len();
        self.mem.set(idx, value);
    }
}

impl<const N: usize> Memory for FixedMemoryBlock<N> {
    open spec fn mem(&self) -> Seq<u8> {
        self@
    }

    open spec fn written(&self, address: usize, value: u8) -> Seq<u8> {
        self@.update((address as int) % (self@.len() as int), value)
    }

    fn len(&self) -> (r: usize) {
        self.mem.len()
    }

    fn read(&self, address: usize) -> (r: u8) {
        let address = address % self.mem.len();
        self.mem[address]
    }

    fn write(&mut self, address: usize, value: u8) {
        let address = address % self.mem.len();
        self.mem.set(address, value);
    }
}

} // verus!
