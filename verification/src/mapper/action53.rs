//! Action 53 multicart: an outer 32 KiB bank, an inner bank and a banking
//! mode, written through a register index latched at $5000-$5FFF.
use vstd::prelude::*;

use crate::bus::{AddressBus, AndAndMask, BusKind, DeviceKind, MappingFn, RangeAndMask};
use crate::cartridge::INes;
use crate::mapper::{MapperInput, banked, banked_index, Mapper, Mirroring, Nametable, SimpleMirroring};
use crate::memory::{lemma_bank_sizes, Memory, MemoryBlock};
use crate::ppu::PpuFetchKind;

verus! {

pub struct Action53 {
    cartridge: INes,
    chr_ram: Option<MemoryBlock>,
    regs: [u8; 4],
    mirroring: SimpleMirroring,
    reg_index: usize,
}

/// The 16 KiB banks for $8000 and $C000 from the mode, game-size, outer
/// and inner bank fields: the outer bank supplies the high bits, the inner
/// bank as many low bits as the game size allows, and modes 2 and 3 fix
/// one half to the outer bank.
pub open spec fn action53_banks(r1: u8, r2: u8, r3: u8) -> (usize, usize) {
    let mode = (r2 >> 2u8) & 0x03;
    let size = (r2 >> 4u8) & 0x03;
    let outer: usize = (r3 as usize) << 1usize;
    let inner: usize = (r1 as usize) & 0x0f;
    if mode == 0 || mode == 1 {
        if size == 0 {
            (outer, outer | 0x01)
        } else if size == 1 {
            ((outer & 0xffc) | ((inner & 0x1) << 1usize), (outer & 0xffc) | ((inner & 0x1) << 1usize) | 0x01)
        } else if size == 2 {
            ((outer & 0xff8) | ((inner & 0x3) << 1usize), (outer & 0xff8) | ((inner & 0x3) << 1usize) | 0x01)
        } else {
            ((outer & 0xff0) | ((inner & 0x7) << 1usize), (outer & 0xff0) | ((inner & 0x7) << 1usize) | 0x01)
        }
    } else if mode == 2 {
        (
            outer,
            if size == 0 {
                (outer & 0xffe) | (inner & 0x1)
            } else if size == 1 {
                (outer & 0xffc) | (inner & 0x3)
            } else if size == 2 {
                (outer & 0xff8) | (inner & 0x7)
            } else {
                (outer & 0xff0) | (inner & 0xf)
            },
        )
    } else {
        (
            if size == 0 {
                (outer & 0xffe) | (inner & 0x1)
            } else if size == 1 {
                (outer & 0xffc) | (inner & 0x3)
            } else if size == 2 {
                (outer & 0xff8) | (inner & 0x7)
            } else {
                (outer & 0xff0) | (inner & 0xf)
            },
            outer | 0x01,
        )
    }
}

impl Action53 {
    pub closed spec fn prg(&self) -> Seq<u8> {
        self.cartridge.prg_rom@
    }

    pub closed spec fn chr(&self) -> Seq<u8> {
        match self.chr_ram {
            Some(ram) => ram@,
            None => self.cartridge.chr_rom@,
        }
    }

    pub closed spec fn has_chr_ram(&self) -> bool {
        self.chr_ram is Some
    }

    pub closed spec fn regs(&self) -> Seq<u8> {
        self.regs@
    }

    pub closed spec fn reg_index(&self) -> usize {
        self.reg_index
    }

    pub closed spec fn mirroring(&self) -> Mirroring {
        self.mirroring.mirroring
    }

    pub open spec fn prg_bank(&self, addr: u16) -> usize {
        let (low, high) = action53_banks(self.regs()[1], self.regs()[2], self.regs()[3]);
        if addr & 0x4000 == 0 { low } else { high }
    }

    /// The image has what the board reads: PRG ROM and a CHR source.
    pub open spec fn usable(cartridge: &INes) -> bool {
        cartridge.prg_rom@.len() > 0 && (cartridge.chr_rom@.len() > 0 || cartridge.chr_ram_bytes >= 1024)
    }

    /// The board as it comes up at power-on from this image.
    pub open spec fn powered_on(&self, cartridge: INes) -> bool {
        &&& self.prg() == cartridge.prg_rom@
        &&& self.regs() == seq![0u8, 0, 2, 0xff]
        &&& self.reg_index() == 0
        &&& self.has_chr_ram() == (cartridge.chr_rom@.len() == 0)
        &&& !self.has_chr_ram() ==> self.chr() == cartridge.chr_rom@
        &&& self.mirroring() == cartridge.mirroring.spec_into()
        &&& Self::usable(&cartridge) ==> self.wf()
    }

    /// Power-on: last outer bank, fixed-high mode.
    pub fn new(cartridge: INes) -> (r: Action53)
        ensures
            r.powered_on(cartridge),
            r.prg() == cartridge.prg_rom@,
            r.regs() == seq![0u8, 0, 2, 0xff],
            r.reg_index() == 0,
            r.has_chr_ram() == (cartridge.chr_rom@.len() == 0),
            !r.has_chr_ram() ==> r.chr() == cartridge.chr_rom@,
            r.mirroring() == cartridge.mirroring.spec_into(),
            Self::usable(&cartridge) ==> r.wf(),
    {
        let chr_ram = if cartridge.chr_rom.len() == 0 {
            Some(MemoryBlock::new(cartridge.chr_ram_bytes / 1024))
        } else {
            None
        };

        let regs = [0x00, 0x00, 0x02, 0xff];
        let mirroring = SimpleMirroring::new(cartridge.mirroring.into());

        let r = Self { cartridge, chr_ram, regs, reg_index: 0, mirroring };
        assert(r.regs@ =~= seq![0u8, 0, 2, 0xff]);
        r
    }

    fn map_prg(&self, addr: u16) -> (r: usize)
        ensures
            r == self.prg_bank(addr),
    {
        let low;
        let high;
        let mode = (self.regs[2] >> 2) & 0x03;
        let size = (self.regs[2] >> 4) & 0x03;
        let outer = (self.regs[3] as usize) << 1;
        let inner = (self.regs[1] as usize) & 0x0f;
        if mode == 0 || mode == 1 {
            if size == 0 {
                low = outer;
                high = outer | 0x01;
            } else if size == 1 {
                low = (outer & 0xffc) | ((inner & 0x1) << 1);
                high = (outer & 0xffc) | ((inner & 0x1) << 1) | 0x01;
            } else if size == 2 {
                low = (outer & 0xff8) | ((inner & 0x3) << 1);
                high = (outer & 0xff8) | ((inner & 0x3) << 1) | 0x01;
            } else {
                low = (outer & 0xff0) | ((inner & 0x7) << 1);
                high = (outer & 0xff0) | ((inner & 0x7) << 1) | 0x01;
            }
        } else if mode == 2 {
            low = outer;
            if size == 0 {
                high = (outer & 0xffe) | (inner & 0x1);
            } else if size == 1 {
                high = (outer & 0xffc) | (inner & 0x3);
            } else if size == 2 {
                high = (outer & 0xff8) | (inner & 0x7);
            } else {
                high = (outer & 0xff0) | (inner & 0xf);
            }
        } else {
            high = outer | 0x01;
            if size == 0 {
                low = (outer & 0xffe) | (inner & 0x1);
            } else if size == 1 {
                low = (outer & 0xffc) | (inner & 0x3);
            } else if size == 2 {
                low = (outer & 0xff8) | (inner & 0x7);
            } else {
                low = (outer & 0xff0) | (inner & 0xf);
            }
        }

        if addr & 0x4000 == 0 {
            low
        } else {
            high
        }
    }

    /// Register writes: the game-size register sets mirroring from its low
    /// two bits; the CHR and inner-bank registers set one-screen mirroring
    /// from bit 4 unless the mirroring mode is fixed.
    fn write_cpu(&mut self, addr: u16, value: u8)
        requires
            old(self).reg_index < 4,
        ensures
            final(self).reg_index < 4,
            addr & 0xf000 == 0x5000 ==> final(self).reg_index == (if value & 0x80 != 0 { 2usize } else { 0 })
                + (if value & 0x01 != 0 { 1usize } else { 0 }) && final(self).regs@ == old(self).regs@
                && final(self).mirroring == old(self).mirroring,
            addr & 0xf000 != 0x5000 ==> final(self).reg_index == old(self).reg_index && final(self).regs@
                == old(self).regs@.update(old(self).reg_index as int, value),
            final(self).cartridge == old(self).cartridge,
            final(self).chr_ram == old(self).chr_ram,
    {
        if addr & 0xf000 == 0x5000 {
            let sel = value & 0x81;
            proof {
                crate::bits::lemma_u8(value);
                lemma_select_bits(value);
            }
            if sel == 0x00 {
                self.reg_index = 0;
            } else if sel == 0x01 {
                self.reg_index = 1;
            } else if sel == 0x80 {
                self.reg_index = 2;
            } else {
                self.reg_index = 3;
            }
        } else {
            let index = self.reg_index & 3;
            assert(index == self.reg_index) by {
                lemma_index(self.reg_index);
            }
            self.regs[index] = value;
            if index == 0 {
                if self.regs[2] & 0x02 == 0 {
                    if self.regs[0] & 0x10 == 0 {
                        self.mirroring.internal_b();
                    } else {
                        self.mirroring.internal_a();
                    }
                }
            } else if index == 1 {
                if self.regs[2] & 0x02 == 0 {
                    if self.regs[1] & 0x10 == 0 {
                        self.mirroring.internal_b();
                    } else {
                        self.mirroring.internal_a();
                    }
                }
            } else if index == 2 {
                let m = self.regs[2] & 3;
                if m == 0 {
                    self.mirroring.internal_b();
                } else if m == 1 {
                    self.mirroring.internal_a();
                } else if m == 2 {
                    self.mirroring.vertical();
                } else {
                    self.mirroring.horizontal();
                }
            }
        }
    }
}

proof fn lemma_select_bits(v: u8)
    ensures
        (v & 0x81 == 0) == (v & 0x80 == 0 && v & 0x01 == 0),
        (v & 0x81 == 1) == (v & 0x80 == 0 && v & 0x01 != 0),
        (v & 0x81 == 0x80) == (v & 0x80 != 0 && v & 0x01 == 0),
{
    assert((v & 0x81 == 0) == (v & 0x80 == 0 && v & 0x01 == 0) && (v & 0x81 == 1) == (v & 0x80 == 0
        && v & 0x01 != 0) && (v & 0x81 == 0x80) == (v & 0x80 != 0 && v & 0x01 == 0)) by (bit_vector);
}

proof fn lemma_index(i: usize)
    requires
        i < 4,
    ensures
        i & 3 == i,
{
    assert(i < 4 ==> i & 3 == i) by (bit_vector);
}

impl Mapper for Action53 {
    closed spec fn wf(&self) -> bool {
        self.prg().len() > 0 && self.chr().len() > 0 && self.reg_index < 4
    }

    open spec fn readable(&self, bus: BusKind, addr: u16) -> bool {
        true
    }

    open spec fn writable(&self, bus: BusKind, addr: u16) -> bool {
        true
    }

    closed spec fn accepts(&self, input: MapperInput) -> bool {
        true
    }

    open spec fn fetchable(&self, address: u16) -> bool {
        true
    }

    open spec fn spec_peek(&self, bus: BusKind, addr: u16) -> u8 {
        match bus {
            BusKind::Cpu => banked(self.prg(), self.prg_bank(addr), 0x4000, addr),
            BusKind::Ppu => banked(self.chr(), (self.regs()[0] as usize) & 3, 0x2000, addr),
        }
    }

    closed spec fn spec_nametable(&self, address: u16) -> Nametable {
        self.mirroring().spec_ppu_fetch(address)
    }

    fn register(&self, cpu: &mut AddressBus)
        ensures
            final(cpu).writes() == old(cpu).writes().push(
                (MappingFn::RangeAndMask(RangeAndMask(0x5000, 0x6000, 0xffff)), DeviceKind::Mapper),
            ).push((MappingFn::AndAndMask(AndAndMask(0x8000, 0xffff)), DeviceKind::Mapper)),
            final(cpu).reads() == old(cpu).reads().push(
                (MappingFn::AndAndMask(AndAndMask(0x8000, 0xffff)), DeviceKind::Mapper),
            ),
    {
        cpu.register_write(DeviceKind::Mapper, RangeAndMask(0x5000, 0x6000, 0xffff).into());
        cpu.register_read(DeviceKind::Mapper, AndAndMask(0x8000, 0xffff).into());
        cpu.register_write(DeviceKind::Mapper, AndAndMask(0x8000, 0xffff).into());
    }

    fn peek(&self, bus: BusKind, addr: u16) -> (r: u8) {
        proof {
            lemma_bank_sizes();
        }
        match bus {
            BusKind::Cpu => {
                let bank = self.map_prg(addr);
                self.cartridge.prg_rom.read_mapped(bank, 16 * 1024, addr)
            },
            BusKind::Ppu => {
                let bank = self.regs[0] as usize & 3;
                if let Some(ram) = self.chr_ram.as_ref() {
                    ram.read_mapped(bank, 8 * 1024, addr)
                } else {
                    self.cartridge.chr_rom.read_mapped(bank, 8 * 1024, addr)
                }
            },
        }
    }

    /// CPU writes go to the register index or the selected register; PPU
    /// writes go to the CHR RAM bank selected by register 0.
    fn write(&mut self, bus: BusKind, addr: u16, value: u8)
        ensures
            old(self).wrote(&*final(self), bus, addr, value),
            bus is Cpu && addr & 0xf000 == 0x5000 ==> final(self).reg_index() == (if value & 0x80 != 0 {
                2usize
            } else {
                0
            }) + (if value & 0x01 != 0 { 1usize } else { 0 }) && final(self).regs() == old(self).regs(),
            bus is Cpu && addr & 0xf000 != 0x5000 ==> final(self).reg_index() == old(self).reg_index()
                && final(self).regs() == old(self).regs().update(old(self).reg_index() as int, value),
            bus is Cpu ==> final(self).chr() == old(self).chr(),
            bus is Ppu ==> final(self).regs() == old(self).regs() && final(self).reg_index() == old(
                self,
            ).reg_index() && (if old(self).has_chr_ram() {
                final(self).chr() == old(self).chr().update(
                    banked_index(old(self).chr(), (old(self).regs()[0] as usize) & 3, 0x2000, addr),
                    value,
                )
            } else {
                final(self).chr() == old(self).chr()
            }),
            final(self).prg() == old(self).prg(),
            final(self).has_chr_ram() == old(self).has_chr_ram(),
    {
        proof {
            lemma_bank_sizes();
        }
        match bus {
            BusKind::Cpu => self.write_cpu(addr, value),
            BusKind::Ppu => {
                if let Some(ram) = self.chr_ram.as_mut() {
                    let bank = self.regs[0] as usize & 3;
                    ram.write_mapped(bank, 8 * 1024, addr, value);
                }
            },
        }
    }

    fn peek_ppu_fetch(&self, address: u16, _kind: PpuFetchKind) -> (r: Nametable) {
        self.mirroring.ppu_fetch(address)
    }
}

impl Action53 {
    /// What a write does to the board.
    pub open spec fn wrote(&self, new: &Action53, bus: BusKind, addr: u16, value: u8) -> bool {
        &&& bus is Cpu && addr & 0xf000 == 0x5000 ==> new.reg_index() == (if value & 0x80 != 0 {
                    2usize
                } else {
                    0
                }) + (if value & 0x01 != 0 { 1usize } else { 0 }) && new.regs() == self.regs()
        &&& bus is Cpu && addr & 0xf000 != 0x5000 ==> new.reg_index() == self.reg_index()
                    && new.regs() == self.regs().update(self.reg_index() as int, value)
        &&& bus is Cpu ==> new.chr() == self.chr()
        &&& bus is Ppu ==> new.regs() == self.regs() && new.reg_index() == self.reg_index() && (if self.has_chr_ram() {
                    new.chr() == self.chr().update(
                        banked_index(self.chr(), (self.regs()[0] as usize) & 3, 0x2000, addr),
                        value,
                    )
                } else {
                    new.chr() == self.chr()
                })
        &&& new.prg() == self.prg()
        &&& new.has_chr_ram() == self.has_chr_ram()
    }
}

} // verus!
