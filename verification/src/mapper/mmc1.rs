//! MMC1 (SxROM): five-write serial port into four internal registers that
//! control mirroring, PRG banking mode and banks, and CHR banks.
use vstd::prelude::*;

use crate::bus::{AddressBus, AndAndMask, AndEqualsAndMask, BusKind, DeviceKind, MappingFn};
use crate::cartridge::INes;
use crate::mapper::{MapperInput, banked, banked_index, Mapper, Mirroring, Nametable, SaveWram, SimpleMirroring};
use crate::memory::{is_pow2, lemma_bank_sizes, FixedMemoryBlock, Memory};
use crate::ppu::PpuFetchKind;

verus! {

pub struct Mmc1 {
    cartridge: INes,
    current_tick: u64,
    last_write_tick: u64,
    prg_ram: FixedMemoryBlock<8>,
    chr_ram: Option<FixedMemoryBlock<8>>,
    shift_reg: u32,
    counter: u32,
    regs: [u32; 4],
    prg_ram_write_protect: bool,
    last: usize,
    mirroring: SimpleMirroring,
    wide_prg: bool,
}

/// The mirroring selected by the low two bits of the control register.
pub open spec fn control_mirroring(control: u32) -> Mirroring {
    match control % 4 {
        0 => Mirroring::Single(Nametable::InternalB),
        1 => Mirroring::Single(Nametable::InternalA),
        2 => Mirroring::Vertical,
        _ => Mirroring::Horizontal,
    }
}

impl Mmc1 {
    pub closed spec fn prg(&self) -> Seq<u8> {
        self.cartridge.prg_rom@
    }

    pub closed spec fn chr(&self) -> Seq<u8> {
        match self.chr_ram {
            Some(ram) => ram@,
            None => self.cartridge.chr_rom@,
        }
    }

    pub closed spec fn ram(&self) -> Seq<u8> {
        self.prg_ram@
    }

    pub closed spec fn regs(&self) -> Seq<u32> {
        self.regs@
    }

    pub closed spec fn shift(&self) -> (u32, u32) {
        (self.shift_reg, self.counter)
    }

    pub closed spec fn ticks(&self) -> (u64, u64) {
        (self.current_tick, self.last_write_tick)
    }

    pub closed spec fn write_protected(&self) -> bool {
        self.prg_ram_write_protect
    }

    pub closed spec fn mirroring(&self) -> Mirroring {
        self.mirroring.mirroring
    }

    pub closed spec fn has_chr_ram(&self) -> bool {
        self.chr_ram is Some
    }

    pub closed spec fn battery(&self) -> bool {
        self.cartridge.battery
    }

    /// 16 KiB PRG bank and size in bytes for a CPU address.
    pub closed spec fn prg_map(&self, addr: u16) -> (usize, usize) {
        let prg_high: usize = if self.wide_prg { (self.regs@[1] & 0x10) as usize } else { 0 };
        let prg_bank: usize = (self.regs@[3] & 0xf) as usize | prg_high;
        let mode = self.regs@[0] & 0xc;
        if mode == 0 || mode == 4 {
            (prg_bank >> 1usize, 0x8000)
        } else if mode == 8 {
            if addr & 0x4000 == 0 { (prg_high, 0x4000) } else { (prg_bank, 0x4000) }
        } else {
            if addr & 0x4000 == 0 { (prg_bank, 0x4000) } else { (self.last & 0xf | prg_high, 0x4000) }
        }
    }

    /// CHR bank and size in bytes for a PPU address.
    pub closed spec fn chr_map(&self, addr: u16) -> (usize, usize) {
        let chr_mask: u32 = if self.wide_prg { 0x1 } else { 0x1f };
        if self.regs@[0] & 0x10 == 0 {
            (((self.regs@[1] & chr_mask) >> 1u32) as usize, 0x2000)
        } else if addr & 0x1000 == 0 {
            ((self.regs@[1] & chr_mask) as usize, 0x1000)
        } else {
            ((self.regs@[2] & chr_mask) as usize, 0x1000)
        }
    }

    /// The serial port after a write of `value` to `addr` (at or above
    /// $8000): bit 7 resets it, writes on consecutive cycles are ignored,
    /// and the fifth bit commits the value to the register $8000/$A000/
    /// $C000/$E000 selects.
    pub closed spec fn serial_post(self, addr: u16, value: u8) -> Mmc1 {
        let s = if value & 0x80 != 0 {
            Mmc1 { regs: self.regs, shift_reg: 0, counter: 0, ..self }
        } else if self.current_tick > self.last_write_tick + 1 {
            let shift = self.shift_reg | (((value & 1) as u32) << self.counter);
            let counter = (self.counter + 1) as u32;
            if counter == 5 {
                let which = addr & 0xe000;
                Mmc1 { shift_reg: 0, counter: 0, ..self.commit(which, shift) }
            } else {
                Mmc1 { shift_reg: shift, counter, ..self }
            }
        } else {
            self
        };
        Mmc1 { last_write_tick: self.current_tick, ..s }
    }

    /// Loading a full value into one of the four registers.
    pub closed spec fn commit(self, which: u16, value: u32) -> Mmc1 {
        if which == 0x8000 {
            Mmc1 {
                regs: self.regs,
                mirroring: SimpleMirroring { mirroring: control_mirroring(value) },
                ..self
            }
        } else if which == 0xa000 {
            self
        } else if which == 0xc000 {
            self
        } else {
            Mmc1 { prg_ram_write_protect: value & 0x10 != 0, ..self }
        }
    }

    /// Register contents after a commit of `value` selected by `which`.
    pub closed spec fn committed_regs(self, which: u16, value: u32) -> Seq<u32> {
        let i: int = if which == 0x8000 {
            0
        } else if which == 0xa000 {
            1
        } else if which == 0xc000 {
            2
        } else {
            3
        };
        self.regs@.update(i, value)
    }

    pub closed spec fn inner_wf(&self) -> bool {
        &&& self.prg_ram.wf()
        &&& match self.chr_ram {
            Some(ram) => ram.wf(),
            None => self.cartridge.chr_rom@.len() > 0,
        }
        &&& self.prg().len() > 0
        &&& self.counter < 5
        &&& self.shift_reg < 32
        &&& self.last_write_tick <= self.current_tick
        &&& self.current_tick < u64::MAX
        &&& self.shift_reg < (1u32 << self.counter)
    }

    /// The board as it comes up at power-on from this image.
    pub open spec fn powered_on(&self, cartridge: INes) -> bool {
        &&& self.prg() == cartridge.prg_rom@
        &&& self.regs() == seq![0x0cu32, 0, 0, 0]
        &&& self.shift() == (0u32, 0u32)
        &&& self.ticks() == (0u64, 0u64)
        &&& self.write_protected()
        &&& self.has_chr_ram() == (cartridge.chr_rom@.len() == 0)
        &&& self.mirroring() == cartridge.mirroring.spec_into()
        &&& self.wf()
    }

    /// PRG RAM is loaded from the save; CHR RAM replaces an empty CHR ROM;
    /// the control register starts in fixed-last-bank mode.
    pub fn new(cartridge: INes) -> (r: Mmc1)
        requires
            cartridge.prg_rom@.len() >= 0x4000,
        ensures
            r.powered_on(cartridge),
            r.prg() == cartridge.prg_rom@,
            r.regs() == seq![0x0cu32, 0, 0, 0],
            r.shift() == (0u32, 0u32),
            r.ticks() == (0u64, 0u64),
            r.write_protected(),
            r.has_chr_ram() == (cartridge.chr_rom@.len() == 0),
            r.mirroring() == cartridge.mirroring.spec_into(),
            r.wf(),
    {
        let mut cartridge = cartridge;
        let mut prg_ram = FixedMemoryBlock::new();
        if let Some(wram) = cartridge.wram.take() {
            prg_ram.restore_wram(wram);
        }

        let chr_ram = if cartridge.chr_rom.len() == 0 {
            Some(FixedMemoryBlock::new())
        } else {
            None
        };

        let mirroring = SimpleMirroring::new(cartridge.mirroring.into());
        let last = (cartridge.prg_rom.len() / 0x4000) - 1;
        let wide_prg = cartridge.prg_rom.len() == 512 * 1024;

        let r = Self {
            cartridge,
            current_tick: 0,
            last_write_tick: 0,
            prg_ram,
            chr_ram,
            shift_reg: 0,
            counter: 0,
            regs: [0x0c, 0, 0, 0],
            prg_ram_write_protect: true,
            last,
            mirroring,
            wide_prg,
        };
        assert(r.regs@ =~= seq![0x0cu32, 0, 0, 0]);
        proof {
            lemma_serial_bits(0, 0, 0);
        }
        r
    }

    fn map_prg(&self, addr: u16) -> (r: (usize, usize))
        ensures
            r == self.prg_map(addr),
            is_pow2(r.1),
    {
        proof {
            lemma_bank_sizes();
        }
        let prg_high: usize = if self.wide_prg {
            (self.regs[1] & 0x10) as usize
        } else {
            0
        };
        let prg_bank: usize = (self.regs[3] & 0xf) as usize | prg_high;
        let mode = self.regs[0] & 0xc;
        if mode == 0 || mode == 4 {
            (prg_bank >> 1, 0x8000)
        } else if mode == 8 {
            if addr & 0x4000 == 0 {
                (prg_high, 0x4000)
            } else {
                (prg_bank, 0x4000)
            }
        } else {
            if addr & 0x4000 == 0 {
                (prg_bank, 0x4000)
            } else {
                (self.last & 0xf | prg_high, 0x4000)
            }
        }
    }

    fn map_chr(&self, addr: u16) -> (r: (usize, usize))
        ensures
            r == self.chr_map(addr),
            is_pow2(r.1),
    {
        proof {
            lemma_bank_sizes();
        }
        let chr_mask: u32 = if self.wide_prg {
            0x1
        } else {
            0x1f
        };
        if self.regs[0] & 0x10 == 0 {
            (((self.regs[1] & chr_mask) >> 1) as usize, 0x2000)
        } else if addr & 0x1000 == 0 {
            ((self.regs[1] & chr_mask) as usize, 0x1000)
        } else {
            ((self.regs[2] & chr_mask) as usize, 0x1000)
        }
    }

    fn write_serial(&mut self, addr: u16, value: u8)
        requires
            old(self).inner_wf(),
        ensures
            final(self).inner_wf(),
            ({
                let post = old(self).serial_post(addr, value);
                &&& final(self).shift() == post.shift()
                &&& final(self).ticks() == post.ticks()
                &&& final(self).write_protected() == post.write_protected()
                &&& final(self).mirroring() == post.mirroring()
            }),
            final(self).regs() == if value & 0x80 != 0 {
                old(self).regs().update(0, old(self).regs()[0] | 0x0c)
            } else if old(self).current_tick > old(self).last_write_tick + 1 && old(self).counter + 1
                == 5 {
                old(self).committed_regs(
                    addr & 0xe000,
                    old(self).shift_reg | (((value & 1) as u32) << old(self).counter),
                )
            } else {
                old(self).regs()
            },
            final(self).prg() == old(self).prg(),
            final(self).chr() == old(self).chr(),
            final(self).ram() == old(self).ram(),
            final(self).has_chr_ram() == old(self).has_chr_ram(),
            final(self).battery() == old(self).battery(),
            final(self).last == old(self).last,
            final(self).wide_prg == old(self).wide_prg,
    {
        proof {
            lemma_serial_bits(0, 0, 0);
        }
        if value & 0x80 != 0 {
            self.regs[0] = self.regs[0] | 0x0c;
            self.shift_reg = 0;
            self.counter = 0;
        } else {
            if self.current_tick > self.last_write_tick + 1 {
                let bit = (value as u32 & 1) << self.counter;
                proof {
                    lemma_serial_bits(self.shift_reg, value, self.counter);
                }
                self.shift_reg = self.shift_reg | bit;
                self.counter += 1;
                if self.counter == 5 {
                    let which = addr & 0xe000;
                    let v = self.shift_reg;
                    if which == 0x8000 {
                        self.regs[0] = v;
                        let m = v & 3;
                        assert(m == v % 4) by {
                            lemma_u32_low(v);
                        }
                        if m == 0 {
                            self.mirroring.internal_b();
                        } else if m == 1 {
                            self.mirroring.internal_a();
                        } else if m == 2 {
                            self.mirroring.vertical();
                        } else {
                            self.mirroring.horizontal();
                        }
                    } else if which == 0xa000 {
                        self.regs[1] = v;
                    } else if which == 0xc000 {
                        self.regs[2] = v;
                    } else {
                        self.regs[3] = v;
                        self.prg_ram_write_protect = v & 0x10 != 0;
                    }
                    self.shift_reg = 0;
                    self.counter = 0;
                }
            }
        }
        self.last_write_tick = self.current_tick;
    }
}

proof fn lemma_serial_bits(shift: u32, value: u8, counter: u32)
    ensures
        shift < (1u32 << counter) && counter < 5 ==> (shift | (((value & 1) as u32) << counter)) < (1u32
            << ((counter + 1) as u32)) && (1u32 << ((counter + 1) as u32)) <= 32,
        (1u32 << 0u32) == 1,
{
    assert((1u32 << 0u32) == 1) by (bit_vector);
    assert(shift < (1u32 << counter) && counter < 5 ==> (shift | (((value & 1) as u32) << counter)) < (1u32
        << ((counter + 1) as u32)) && (1u32 << ((counter + 1) as u32)) <= 32) by (bit_vector);
}

proof fn lemma_u32_low(v: u32)
    ensures
        v & 3 == v % 4,
{
    assert(v & 3 == v % 4) by (bit_vector);
}

impl Mapper for Mmc1 {
    closed spec fn wf(&self) -> bool {
        self.inner_wf()
    }

    open spec fn readable(&self, bus: BusKind, addr: u16) -> bool {
        true
    }

    open spec fn writable(&self, bus: BusKind, addr: u16) -> bool {
        true
    }

    closed spec fn accepts(&self, input: MapperInput) -> bool {
        true
    }

    open spec fn fetchable(&self, address: u16) -> bool {
        true
    }

    open spec fn spec_peek(&self, bus: BusKind, addr: u16) -> u8 {
        match bus {
            BusKind::Cpu => if addr & 0x8000 == 0 {
                self.ram()[(addr as int) % 0x2000]
            } else {
                banked(self.prg(), self.prg_map(addr).0, self.prg_map(addr).1, addr)
            },
            BusKind::Ppu => banked(self.chr(), self.chr_map(addr).0, self.chr_map(addr).1, addr),
        }
    }

    closed spec fn spec_nametable(&self, address: u16) -> Nametable {
        self.mirroring().spec_ppu_fetch(address)
    }

    fn register(&self, cpu: &mut AddressBus)
        ensures
            final(cpu).reads() == old(cpu).reads().push(
                (MappingFn::AndEqualsAndMask(AndEqualsAndMask(0xe000, 0x6000, 0x7fff)), DeviceKind::Mapper),
            ).push((MappingFn::AndAndMask(AndAndMask(0x8000, 0xffff)), DeviceKind::Mapper)),
            final(cpu).writes() == old(cpu).writes().push(
                (MappingFn::AndEqualsAndMask(AndEqualsAndMask(0xe000, 0x6000, 0x7fff)), DeviceKind::Mapper),
            ).push((MappingFn::AndAndMask(AndAndMask(0x8000, 0xffff)), DeviceKind::Mapper)),
    {
        cpu.register_read(DeviceKind::Mapper, AndEqualsAndMask(0xe000, 0x6000, 0x7fff).into());
        cpu.register_write(DeviceKind::Mapper, AndEqualsAndMask(0xe000, 0x6000, 0x7fff).into());
        cpu.register_read(DeviceKind::Mapper, AndAndMask(0x8000, 0xffff).into());
        cpu.register_write(DeviceKind::Mapper, AndAndMask(0x8000, 0xffff).into());
    }

    fn peek(&self, bus: BusKind, addr: u16) -> (r: u8) {
        match bus {
            BusKind::Cpu => {
                if addr & 0x8000 == 0 {
                    self.prg_ram.read(addr)
                } else {
                    let (bank, size) = self.map_prg(addr);
                    self.cartridge.prg_rom.read_mapped(bank, size, addr)
                }
            },
            BusKind::Ppu => {
                let (bank, size) = self.map_chr(addr);
                if let Some(ram) = self.chr_ram.as_ref() {
                    ram.read_mapped(bank, size, addr)
                } else {
                    self.cartridge.chr_rom.read_mapped(bank, size, addr)
                }
            },
        }
    }

    /// Below $8000 CPU writes go to PRG RAM unless write-protected; above,
    /// they feed the serial port. PPU writes go to CHR RAM.
    fn write(&mut self, bus: BusKind, addr: u16, value: u8)
        ensures
            old(self).wrote(&*final(self), bus, addr, value),
            bus is Cpu && addr & 0x8000 == 0 ==> final(self).ram() == if old(self).write_protected() {
                old(self).ram()
            } else {
                old(self).ram().update((addr as int) % 0x2000, value)
            } && final(self).regs() == old(self).regs() && final(self).shift() == old(self).shift()
                && final(self).ticks() == old(self).ticks(),
            bus is Cpu && addr & 0x8000 != 0 ==> final(self).ram() == old(self).ram() && ({
                let post = old(self).serial_post(addr, value);
                &&& final(self).shift() == post.shift()
                &&& final(self).ticks() == post.ticks()
                &&& final(self).write_protected() == post.write_protected()
                &&& final(self).mirroring() == post.mirroring()
            }),
            bus is Ppu ==> final(self).ram() == old(self).ram() && final(self).regs() == old(self).regs()
                && final(self).shift() == old(self).shift() && final(self).ticks() == old(self).ticks()
                && (if old(self).has_chr_ram() {
                final(self).chr() == old(self).chr().update(
                    banked_index(old(self).chr(), old(self).chr_map(addr).0, old(self).chr_map(addr).1, addr),
                    value,
                )
            } else {
                final(self).chr() == old(self).chr()
            }),
            bus is Cpu ==> final(self).chr() == old(self).chr(),
            final(self).prg() == old(self).prg(),
            final(self).has_chr_ram() == old(self).has_chr_ram(),
            final(self).battery() == old(self).battery(),
    {
        match bus {
            BusKind::Cpu => {
                if addr & 0x8000 == 0 {
                    if !self.prg_ram_write_protect {
                        self.prg_ram.write(addr, value);
                    }
                } else {
                    self.write_serial(addr, value);
                }
            },
            BusKind::Ppu => {
                let (bank, size) = self.map_chr(addr);
                if let Some(ram) = self.chr_ram.as_mut() {
                    ram.write_mapped(bank, size, addr, value);
                }
            },
        }
    }

    fn peek_ppu_fetch(&self, address: u16, _kind: PpuFetchKind) -> (r: Nametable) {
        self.mirroring.ppu_fetch(address)
    }

    /// Counts CPU cycles for the consecutive-write filter (saturating just
    /// below the top of the 64-bit range).
    fn tick(&mut self)
        ensures
            old(self).ticked_to(&*final(self)),
            final(self).ticks() == (
                if old(self).ticks().0 < u64::MAX - 1 {
                    (old(self).ticks().0 + 1) as u64
                } else {
                    old(self).ticks().0
                },
                old(self).ticks().1,
            ),
            final(self).regs() == old(self).regs(),
            final(self).shift() == old(self).shift(),
    {
        if self.current_tick < u64::MAX - 1 {
            self.current_tick += 1;
        }
    }

    fn save_wram(&self) -> (r: Option<SaveWram>)
        ensures
            self.wram_is(r),
            self.battery() ==> (r matches Some(w) && w@ == self.ram()),
            !self.battery() ==> r is None,
    {
        if self.cartridge.battery {
            self.prg_ram.save_wram()
        } else {
            None
        }
    }
}

impl Mmc1 {
    /// What a write does to the board.
    pub open spec fn wrote(&self, new: &Mmc1, bus: BusKind, addr: u16, value: u8) -> bool {
        &&& bus is Cpu && addr & 0x8000 == 0 ==> new.ram() == if self.write_protected() {
                    self.ram()
                } else {
                    self.ram().update((addr as int) % 0x2000, value)
                } && new.regs() == self.regs() && new.shift() == self.shift()
                    && new.ticks() == self.ticks()
        &&& bus is Cpu && addr & 0x8000 != 0 ==> new.ram() == self.ram() && ({
                    let post = self.serial_post(addr, value);
                    &&& new.shift() == post.shift()
                    &&& new.ticks() == post.ticks()
                    &&& new.write_protected() == post.write_protected()
                    &&& new.mirroring() == post.mirroring()
                })
        &&& bus is Ppu ==> new.ram() == self.ram() && new.regs() == self.regs()
                    && new.shift() == self.shift() && new.ticks() == self.ticks()
                    && (if self.has_chr_ram() {
                    new.chr() == self.chr().update(
                        banked_index(self.chr(), self.chr_map(addr).0, self.chr_map(addr).1, addr),
                        value,
                    )
                } else {
                    new.chr() == self.chr()
                })
        &&& bus is Cpu ==> new.chr() == self.chr()
        &&& new.prg() == self.prg()
        &&& new.has_chr_ram() == self.has_chr_ram()
        &&& new.battery() == self.battery()
    }

    /// What a cycle does to the board.
    pub open spec fn ticked_to(&self, new: &Mmc1) -> bool {
        &&& new.ticks() == (
                    if self.ticks().0 < u64::MAX - 1 {
                        (self.ticks().0 + 1) as u64
                    } else {
                        self.ticks().0
                    },
                    self.ticks().1,
                )
        &&& new.regs() == self.regs()
        &&& new.shift() == self.shift()
    }

    /// The battery-backed RAM the board hands out.
    pub open spec fn wram_is(&self, r: Option<SaveWram>) -> bool {
        &&& self.battery() ==> (r matches Some(w) && w@ == self.ram())
        &&& !self.battery() ==> r is None
    }
}

/// The control register's low two bits pick the mirroring: 0 one-screen
/// from nametable B, 1 one-screen from A, 2 vertical ($2400 and $2C00 show
/// A, $2000 and $2800 show B), 3 horizontal ($2800 and $2C00 show A).
pub proof fn lemma_control_commit_mirroring(m: Mmc1, value: u32)
    ensures
        value % 4 == 0 ==> m.commit(0x8000, value).mirroring() == Mirroring::Single(Nametable::InternalB),
        value % 4 == 1 ==> m.commit(0x8000, value).mirroring() == Mirroring::Single(Nametable::InternalA),
        value % 4 == 2 ==> m.commit(0x8000, value).mirroring() == Mirroring::Vertical,
        value % 4 == 3 ==> m.commit(0x8000, value).mirroring() == Mirroring::Horizontal,
        value % 4 == 2 ==> m.commit(0x8000, value).mirroring().spec_ppu_fetch(0x2400) == Nametable::InternalA
            && m.commit(0x8000, value).mirroring().spec_ppu_fetch(0x2800) == Nametable::InternalB,
        value % 4 == 3 ==> m.commit(0x8000, value).mirroring().spec_ppu_fetch(0x2400) == Nametable::InternalB
            && m.commit(0x8000, value).mirroring().spec_ppu_fetch(0x2800) == Nametable::InternalA,
{
    assert(0x2400u16 & 0x2000 != 0 && 0x2400u16 & 0x400 != 0 && 0x2400u16 & 0x800 == 0) by (bit_vector);
    assert(0x2800u16 & 0x2000 != 0 && 0x2800u16 & 0x400 == 0 && 0x2800u16 & 0x800 != 0) by (bit_vector);
}

/// The fifth serial bit written to $8000-$9FFF (no reset bit, not on the
/// cycle after another write) commits the control register, whose low two
/// bits are the first two bits written: they pick the mirroring as in
/// `lemma_control_commit_mirroring`.
pub proof fn lemma_fifth_write_mirroring(m: Mmc1, addr: u16, value: u8)
    requires
        value & 0x80 == 0,
        m.ticks().0 > m.ticks().1 + 1,
        m.shift().1 == 4,
        addr & 0xe000 == 0x8000,
    ensures
        m.shift().0 % 4 == 0 ==> m.serial_post(addr, value).mirroring() == Mirroring::Single(
            Nametable::InternalB,
        ),
        m.shift().0 % 4 == 1 ==> m.serial_post(addr, value).mirroring() == Mirroring::Single(
            Nametable::InternalA,
        ),
        m.shift().0 % 4 == 2 ==> m.serial_post(addr, value).mirroring() == Mirroring::Vertical,
        m.shift().0 % 4 == 3 ==> m.serial_post(addr, value).mirroring() == Mirroring::Horizontal,
{
    let sr = m.shift().0;
    let bit = (value & 1) as u32;
    let shift = sr | (bit << 4u32);
    assert(bit <= 1) by (bit_vector)
        requires
            bit == (value & 1) as u32,
    ;
    assert(shift % 4 == sr % 4) by (bit_vector)
        requires
            shift == sr | (bit << 4u32),
            bit <= 1,
    ;
    assert(m.serial_post(addr, value).mirroring() == m.commit(0x8000, shift).mirroring());
    lemma_control_commit_mirroring(m, shift);
}

} // verus!
