//! Mapper 31 (NSF-style): eight 4 KiB PRG banks set through $5000-$5FFF,
//! all starting at the last bank.
use vstd::prelude::*;

use crate::bus::{AddressBus, AndAndMask, AndEqualsAndMask, BusKind, DeviceKind, MappingFn};
use crate::cartridge::INes;
use crate::mapper::{MapperInput, banked, banked_index, Mapper, Nametable};
use crate::memory::{lemma_bank_sizes, Memory, MemoryBlock};
use crate::ppu::PpuFetchKind;

verus! {

pub struct Mapper031 {
    cartridge: INes,
    chr_ram: Option<MemoryBlock>,
    banks: [u8; 8],
}

impl Mapper031 {
    pub closed spec fn prg(&self) -> Seq<u8> {
        self.cartridge.prg_rom@
    }

    pub closed spec fn chr(&self) -> Seq<u8> {
        match self.chr_ram {
            Some(ram) => ram@,
            None => self.cartridge.chr_rom@,
        }
    }

    pub closed spec fn has_chr_ram(&self) -> bool {
        self.chr_ram is Some
    }

    pub closed spec fn banks(&self) -> Seq<u8> {
        self.banks@
    }

    /// The image has what the board reads: PRG ROM and a CHR source.
    pub open spec fn usable(cartridge: &INes) -> bool {
        cartridge.prg_rom@.len() > 0 && if cartridge.chr_ram_bytes > 0 {
            cartridge.chr_ram_bytes >= 1024
        } else {
            cartridge.chr_rom@.len() > 0
        }
    }

    /// The board as it comes up at power-on from this image.
    pub open spec fn powered_on(&self, cartridge: INes) -> bool {
        &&& self.prg() == cartridge.prg_rom@
        &&& self.banks() == Seq::new(8, |i: int| 0xffu8)
        &&& self.has_chr_ram() == (cartridge.chr_ram_bytes > 0)
        &&& !self.has_chr_ram() ==> self.chr() == cartridge.chr_rom@
        &&& Self::usable(&cartridge) ==> self.wf()
    }

    pub fn new(cartridge: INes) -> (r: Self)
        ensures
            r.powered_on(cartridge),
            r.prg() == cartridge.prg_rom@,
            r.banks() == Seq::new(8, |i: int| 0xffu8),
            r.has_chr_ram() == (cartridge.chr_ram_bytes > 0),
            !r.has_chr_ram() ==> r.chr() == cartridge.chr_rom@,
            Self::usable(&cartridge) ==> r.wf(),
    {
        let chr_ram = if cartridge.chr_ram_bytes > 0 {
            Some(MemoryBlock::new(cartridge.chr_ram_bytes / 1024))
        } else {
            None
        };
        let r = Self { chr_ram, cartridge, banks: [0xff; 8] };
        assert(r.banks@ =~= Seq::new(8, |i: int| 0xffu8));
        r
    }
}

impl Mapper for Mapper031 {
    closed spec fn wf(&self) -> bool {
        self.prg().len() > 0 && self.chr().len() > 0
    }

    open spec fn readable(&self, bus: BusKind, addr: u16) -> bool {
        true
    }

    open spec fn writable(&self, bus: BusKind, addr: u16) -> bool {
        true
    }

    /// Each 4 KiB window of $8000-$FFFF has its own bank register.
    closed spec fn accepts(&self, input: MapperInput) -> bool {
        true
    }

    open spec fn fetchable(&self, address: u16) -> bool {
        true
    }

    open spec fn spec_peek(&self, bus: BusKind, addr: u16) -> u8 {
        match bus {
            BusKind::Cpu => banked(self.prg(), self.banks()[((addr % 0x8000) / 0x1000) as int] as usize, 0x1000, addr),
            BusKind::Ppu => banked(self.chr(), 0, 0x2000, addr),
        }
    }

    closed spec fn spec_nametable(&self, address: u16) -> Nametable {
        self.cartridge.mirroring.spec_ppu_fetch(address)
    }

    fn register(&self, cpu: &mut AddressBus)
        ensures
            final(cpu).reads() == old(cpu).reads().push(
                (MappingFn::AndAndMask(AndAndMask(0x8000, 0xffff)), DeviceKind::Mapper),
            ),
            final(cpu).writes() == old(cpu).writes().push(
                (MappingFn::AndEqualsAndMask(AndEqualsAndMask(0xf000, 0x5000, 0xffff)), DeviceKind::Mapper),
            ),
    {
        cpu.register_read(DeviceKind::Mapper, AndAndMask(0x8000, 0xffff).into());
        cpu.register_write(DeviceKind::Mapper, AndEqualsAndMask(0xf000, 0x5000, 0xffff).into());
    }

    fn peek(&self, bus: BusKind, addr: u16) -> (r: u8) {
        proof {
            lemma_bank_sizes();
            crate::bits::lemma_u16(addr);
            crate::bits::lemma_u16(addr & 0x7fff);
        }
        match bus {
            BusKind::Cpu => {
                let bank_idx = (addr & 0x7fff) >> 12;
                assert(bank_idx == (addr % 0x8000) / 0x1000) by {
                    crate::bits::lemma_u16_shift12(addr & 0x7fff);
                }
                let bank = self.banks[bank_idx as usize];
                self.cartridge.prg_rom.read_mapped(bank as usize, 4 * 1024, addr)
            },
            BusKind::Ppu => {
                if let Some(ram) = self.chr_ram.as_ref() {
                    ram.read_mapped(0, 8 * 1024, addr)
                } else {
                    self.cartridge.chr_rom.read_mapped(0, 8 * 1024, addr)
                }
            },
        }
    }

    /// A write to $5000-$5FFF sets bank register `addr & 7`.
    fn write(&mut self, bus: BusKind, addr: u16, value: u8)
        ensures
            old(self).wrote(&*final(self), bus, addr, value),
            bus is Cpu ==> final(self).chr() == old(self).chr() && final(self).banks() == if 0x5000
                <= addr <= 0x5fff {
                old(self).banks().update((addr % 8) as int, value)
            } else {
                old(self).banks()
            },
            bus is Ppu ==> final(self).banks() == old(self).banks() && (if old(self).has_chr_ram() {
                final(self).chr() == old(self).chr().update(
                    banked_index(old(self).chr(), 0, 0x2000, addr),
                    value,
                )
            } else {
                final(self).chr() == old(self).chr()
            }),
            final(self).prg() == old(self).prg(),
            final(self).has_chr_ram() == old(self).has_chr_ram(),
    {
        proof {
            lemma_bank_sizes();
        }
        match bus {
            BusKind::Cpu => {
                if addr >= 0x5000 && addr <= 0x5fff {
                    let bank = (addr & 0x7) as usize;
                    proof {
                        crate::bits::lemma_u16(addr);
                    }
                    assert(addr & 0x7 == addr % 8) by {
                        crate::bits::lemma_u16_shift12(addr);
                    }
                    self.banks[bank] = value;
                }
            },
            BusKind::Ppu => {
                if let Some(ram) = self.chr_ram.as_mut() {
                    ram.write_mapped(0, 8 * 1024, addr, value)
                }
            },
        }
    }

    fn peek_ppu_fetch(&self, address: u16, _kind: PpuFetchKind) -> (r: Nametable) {
        self.cartridge.mirroring.ppu_fetch(address)
    }

    /// Power-on resets every bank register to the last bank.
    fn power(&mut self)
        ensures
            final(self).banks() == Seq::new(8, |i: int| 0xffu8),
            final(self).prg() == old(self).prg(),
            final(self).chr() == old(self).chr(),
            final(self).has_chr_ram() == old(self).has_chr_ram(),
    {
        let banks: [u8; 8] = [0xff, 0xff, 0xff, 0xff, 0xff, 0xff, 0xff, 0xff];
        assert(banks@ =~= Seq::new(8, |i: int| 0xffu8));
        self.banks = banks;
    }
}

impl Mapper031 {
    /// What a write does to the board.
    pub open spec fn wrote(&self, new: &Mapper031, bus: BusKind, addr: u16, value: u8) -> bool {
        &&& bus is Cpu ==> new.chr() == self.chr() && new.banks() == if 0x5000
                    <= addr <= 0x5fff {
                    self.banks().update((addr % 8) as int, value)
                } else {
                    self.banks()
                }
        &&& bus is Ppu ==> new.banks() == self.banks() && (if self.has_chr_ram() {
                    new.chr() == self.chr().update(
                        banked_index(self.chr(), 0, 0x2000, addr),
                        value,
                    )
                } else {
                    new.chr() == self.chr()
                })
        &&& new.prg() == self.prg()
        &&& new.has_chr_ram() == self.has_chr_ram()
    }
}

} // verus!
