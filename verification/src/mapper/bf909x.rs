//! Camerica BF909x: 16 KiB switchable PRG at $8000, last bank fixed at
//! $C000, and (Fire Hawk) one-screen mirroring control at $9000.
use vstd::prelude::*;

use crate::bus::{AddressBus, AndAndMask, BusKind, DeviceKind, MappingFn};
use crate::cartridge::INes;
use crate::mapper::{MapperInput, banked, banked_index, Mapper, Mirroring, Nametable, SimpleMirroring};
use crate::memory::{lemma_bank_sizes, Memory, MemoryBlock};
use crate::ppu::PpuFetchKind;

verus! {

pub struct Bf909x {
    cartridge: INes,
    prg_bank: u8,
    prg_last_bank: usize,
    chr_ram: Option<MemoryBlock>,
    mirroring: SimpleMirroring,
}

impl Bf909x {
    pub closed spec fn prg(&self) -> Seq<u8> {
        self.cartridge.prg_rom@
    }

    pub closed spec fn chr(&self) -> Seq<u8> {
        match self.chr_ram {
            Some(ram) => ram@,
            None => self.cartridge.chr_rom@,
        }
    }

    pub closed spec fn has_chr_ram(&self) -> bool {
        self.chr_ram is Some
    }

    pub closed spec fn prg_bank(&self) -> u8 {
        self.prg_bank
    }

    pub closed spec fn prg_last_bank(&self) -> usize {
        self.prg_last_bank
    }

    pub closed spec fn mirroring(&self) -> Mirroring {
        self.mirroring.mirroring
    }

    /// The image has what the board reads: PRG ROM and a CHR source.
    pub open spec fn usable(cartridge: &INes) -> bool {
        cartridge.chr_ram_bytes >= 1024 || cartridge.chr_rom@.len() > 0
    }

    /// The board as it comes up at power-on from this image.
    pub open spec fn powered_on(&self, cartridge: INes) -> bool {
        &&& self.prg() == cartridge.prg_rom@
        &&& self.prg_bank() == 0
        &&& self.prg_last_bank() == cartridge.prg_rom@.len() / 0x4000 - 1
        &&& self.has_chr_ram() == (cartridge.chr_ram_bytes >= 1024)
        &&& !self.has_chr_ram() ==> self.chr() == cartridge.chr_rom@
        &&& self.mirroring() == cartridge.mirroring.spec_into()
        &&& Self::usable(&cartridge) ==> self.wf()
    }

    pub fn new(cartridge: INes) -> (r: Bf909x)
        requires
            cartridge.prg_rom@.len() >= 0x4000,
        ensures
            r.powered_on(cartridge),
            r.prg() == cartridge.prg_rom@,
            r.prg_bank() == 0,
            r.prg_last_bank() == cartridge.prg_rom@.len() / 0x4000 - 1,
            r.has_chr_ram() == (cartridge.chr_ram_bytes >= 1024),
            !r.has_chr_ram() ==> r.chr() == cartridge.chr_rom@,
            r.mirroring() == cartridge.mirroring.spec_into(),
            Self::usable(&cartridge) ==> r.wf(),
    {
        let prg_last_bank = (cartridge.prg_rom.len() / (16 * 1024)) - 1;

        let chr_ram = if cartridge.chr_ram_bytes >= 1024 {
            Some(MemoryBlock::new(cartridge.chr_ram_bytes / 1024))
        } else {
            None
        };

        Bf909x {
            prg_bank: 0,
            prg_last_bank,
            chr_ram,
            mirroring: SimpleMirroring::new(cartridge.mirroring.into()),
            cartridge,
        }
    }
}

impl Mapper for Bf909x {
    closed spec fn wf(&self) -> bool {
        self.prg().len() > 0 && self.chr().len() > 0
    }

    open spec fn readable(&self, bus: BusKind, addr: u16) -> bool {
        true
    }

    open spec fn writable(&self, bus: BusKind, addr: u16) -> bool {
        true
    }

    closed spec fn accepts(&self, input: MapperInput) -> bool {
        true
    }

    open spec fn fetchable(&self, address: u16) -> bool {
        true
    }

    open spec fn spec_peek(&self, bus: BusKind, addr: u16) -> u8 {
        match bus {
            BusKind::Cpu => banked(
                self.prg(),
                if addr & 0xc000 == 0xc000 { self.prg_last_bank() } else { self.prg_bank() as usize },
                0x4000,
                addr,
            ),
            BusKind::Ppu => banked(self.chr(), 0, 0x2000, addr),
        }
    }

    closed spec fn spec_nametable(&self, address: u16) -> Nametable {
        self.mirroring().spec_ppu_fetch(address)
    }

    fn register(&self, cpu: &mut AddressBus)
        ensures
            final(cpu).reads() == old(cpu).reads().push(
                (MappingFn::AndAndMask(AndAndMask(0x8000, 0xffff)), DeviceKind::Mapper),
            ),
            final(cpu).writes() == old(cpu).writes().push(
                (MappingFn::AndAndMask(AndAndMask(0x8000, 0xffff)), DeviceKind::Mapper),
            ),
    {
        cpu.register_read(DeviceKind::Mapper, AndAndMask(0x8000, 0xffff).into());
        cpu.register_write(DeviceKind::Mapper, AndAndMask(0x8000, 0xffff).into());
    }

    fn peek(&self, bus: BusKind, addr: u16) -> (r: u8) {
        proof {
            lemma_bank_sizes();
        }
        match bus {
            BusKind::Cpu => {
                let bank = if addr & 0xc000 == 0xc000 {
                    self.prg_last_bank
                } else {
                    self.prg_bank as usize
                };
                self.cartridge.prg_rom.read_mapped(bank, 16 * 1024, addr)
            },
            BusKind::Ppu => {
                if let Some(chr_ram) = self.chr_ram.as_ref() {
                    chr_ram.read_mapped(0, 8 * 1024, addr)
                } else {
                    self.cartridge.chr_rom.read_mapped(0, 8 * 1024, addr)
                }
            },
        }
    }

    /// $9000-$9FFF picks the nametable page by bit 4; $C000-$FFFF selects
    /// the 16 KiB bank; PPU writes go to CHR RAM.
    fn write(&mut self, bus: BusKind, addr: u16, value: u8)
        ensures
            old(self).wrote(&*final(self), bus, addr, value),
            bus is Cpu ==> final(self).chr() == old(self).chr() && (if addr & 0xd000 == 0x9000 {
                final(self).prg_bank() == old(self).prg_bank() && final(self).mirroring() == if value
                    & 0x10 != 0 {
                    Mirroring::Single(Nametable::InternalA)
                } else {
                    Mirroring::Single(Nametable::InternalB)
                }
            } else if addr & 0xd000 == 0xc000 || addr & 0xd000 == 0xd000 {
                final(self).prg_bank() == value & 0xf && final(self).mirroring() == old(self).mirroring()
            } else {
                final(self).prg_bank() == old(self).prg_bank() && final(self).mirroring() == old(
                    self,
                ).mirroring()
            }),
            bus is Ppu ==> final(self).prg_bank() == old(self).prg_bank() && final(self).mirroring()
                == old(self).mirroring() && (if old(self).has_chr_ram() {
                final(self).chr() == old(self).chr().update(
                    banked_index(old(self).chr(), 0, 0x2000, addr),
                    value,
                )
            } else {
                final(self).chr() == old(self).chr()
            }),
            final(self).prg() == old(self).prg(),
            final(self).prg_last_bank() == old(self).prg_last_bank(),
            final(self).has_chr_ram() == old(self).has_chr_ram(),
    {
        proof {
            lemma_bank_sizes();
        }
        match bus {
            BusKind::Cpu => {
                let sel = addr & 0xd000;
                if sel == 0x9000 {
                    if value & 0x10 != 0 {
                        self.mirroring.internal_a();
                    } else {
                        self.mirroring.internal_b();
                    }
                } else if sel == 0xc000 || sel == 0xd000 {
                    self.prg_bank = value & 0xf;
                }
            },
            BusKind::Ppu => {
                if let Some(chr_ram) = self.chr_ram.as_mut() {
                    chr_ram.write_mapped(0, 8 * 1024, addr, value)
                }
            },
        }
    }

    fn peek_ppu_fetch(&self, address: u16, _kind: PpuFetchKind) -> (r: Nametable) {
        self.mirroring.ppu_fetch(address)
    }
}

impl Bf909x {
    /// What a write does to the board.
    pub open spec fn wrote(&self, new: &Bf909x, bus: BusKind, addr: u16, value: u8) -> bool {
        &&& bus is Cpu ==> new.chr() == self.chr() && (if addr & 0xd000 == 0x9000 {
                    new.prg_bank() == self.prg_bank() && new.mirroring() == if value
                        & 0x10 != 0 {
                        Mirroring::Single(Nametable::InternalA)
                    } else {
                        Mirroring::Single(Nametable::InternalB)
                    }
                } else if addr & 0xd000 == 0xc000 || addr & 0xd000 == 0xd000 {
                    new.prg_bank() == value & 0xf && new.mirroring() == self.mirroring()
                } else {
                    new.prg_bank() == self.prg_bank() && new.mirroring() == self.mirroring()
                })
        &&& bus is Ppu ==> new.prg_bank() == self.prg_bank() && new.mirroring()
                    == self.mirroring() && (if self.has_chr_ram() {
                    new.chr() == self.chr().update(
                        banked_index(self.chr(), 0, 0x2000, addr),
                        value,
                    )
                } else {
                    new.chr() == self.chr()
                })
        &&& new.prg() == self.prg()
        &&& new.prg_last_bank() == self.prg_last_bank()
        &&& new.has_chr_ram() == self.has_chr_ram()
    }
}

} // verus!
