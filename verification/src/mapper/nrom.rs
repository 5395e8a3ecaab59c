//! NROM: fixed 32 KiB PRG and 8 KiB CHR, with CHR RAM when the image has
//! no CHR ROM.
use vstd::prelude::*;

use crate::bus::{AddressBus, AndAndMask, BusKind, DeviceKind, MappingFn};
use crate::cartridge::INes;
use crate::mapper::{MapperInput, banked, Mapper, Nametable};
use crate::memory::{lemma_bank_sizes, mapped_address, Memory, MemoryBlock};
use crate::ppu::PpuFetchKind;

verus! {

pub struct Nrom {
    cartridge: INes,
    chr_ram: Option<MemoryBlock>,
}

impl Nrom {
    pub closed spec fn prg(&self) -> Seq<u8> {
        self.cartridge.prg_rom@
    }

    pub closed spec fn chr(&self) -> Seq<u8> {
        match self.chr_ram {
            Some(ram) => ram@,
            None => self.cartridge.chr_rom@,
        }
    }

    pub closed spec fn has_chr_ram(&self) -> bool {
        self.chr_ram is Some
    }

    /// The image has what the board reads: PRG ROM and a CHR source.
    pub open spec fn usable(cartridge: &INes) -> bool {
        cartridge.prg_rom@.len() > 0 && if cartridge.chr_ram_bytes > 0 {
            cartridge.chr_ram_bytes >= 1024
        } else {
            cartridge.chr_rom@.len() > 0
        }
    }

    /// The board as it comes up at power-on from this image.
    pub open spec fn powered_on(&self, cartridge: INes) -> bool {
        &&& self.prg() == cartridge.prg_rom@
        &&& self.has_chr_ram() == (cartridge.chr_ram_bytes > 0)
        &&& cartridge.chr_ram_bytes > 0 ==> self.chr() == Seq::new(
                (cartridge.chr_ram_bytes / 1024 * 1024) as nat,
                |i: int| 0u8,
            )
        &&& cartridge.chr_ram_bytes == 0 ==> self.chr() == cartridge.chr_rom@
        &&& Self::usable(&cartridge) ==> self.wf()
    }

    pub fn new(cartridge: INes) -> (r: Nrom)
        ensures
            r.powered_on(cartridge),
            r.prg() == cartridge.prg_rom@,
            r.has_chr_ram() == (cartridge.chr_ram_bytes > 0),
            cartridge.chr_ram_bytes > 0 ==> r.chr() == Seq::new(
                (cartridge.chr_ram_bytes / 1024 * 1024) as nat,
                |i: int| 0u8,
            ),
            cartridge.chr_ram_bytes == 0 ==> r.chr() == cartridge.chr_rom@,
            Self::usable(&cartridge) ==> r.wf(),
    {
        let chr_ram = if cartridge.chr_ram_bytes > 0 {
            Some(MemoryBlock::new(cartridge.chr_ram_bytes / 1024))
        } else {
            None
        };
        Nrom { chr_ram, cartridge }
    }
}

impl Mapper for Nrom {
    closed spec fn wf(&self) -> bool {
        self.prg().len() > 0 && self.chr().len() > 0
    }

    open spec fn readable(&self, bus: BusKind, addr: u16) -> bool {
        true
    }

    open spec fn writable(&self, bus: BusKind, addr: u16) -> bool {
        true
    }

    closed spec fn accepts(&self, input: MapperInput) -> bool {
        true
    }

    open spec fn fetchable(&self, address: u16) -> bool {
        true
    }

    open spec fn spec_peek(&self, bus: BusKind, addr: u16) -> u8 {
        match bus {
            BusKind::Cpu => banked(self.prg(), 0, 0x8000, addr),
            BusKind::Ppu => banked(self.chr(), 0, 0x2000, addr),
        }
    }

    closed spec fn spec_nametable(&self, address: u16) -> Nametable {
        self.cartridge.mirroring.spec_ppu_fetch(address)
    }

    fn register(&self, cpu: &mut AddressBus)
        ensures
            final(cpu).reads() == old(cpu).reads().push(
                (MappingFn::AndAndMask(AndAndMask(0x8000, 0xffff)), DeviceKind::Mapper),
            ),
            final(cpu).writes() == old(cpu).writes(),
    {
        cpu.register_read(DeviceKind::Mapper, AndAndMask(0x8000, 0xffff).into());
    }

    fn peek(&self, bus: BusKind, addr: u16) -> (r: u8) {
        proof {
            lemma_bank_sizes();
        }
        match bus {
            BusKind::Cpu => self.cartridge.prg_rom.read_mapped(0, 32 * 1024, addr),
            BusKind::Ppu => {
                if let Some(ram) = self.chr_ram.as_ref() {
                    ram.read_mapped(0, 8 * 1024, addr)
                } else {
                    self.cartridge.chr_rom.read_mapped(0, 8 * 1024, addr)
                }
            },
        }
    }

    /// Only CHR RAM is writable.
    fn write(&mut self, bus: BusKind, addr: u16, value: u8)
        ensures
            old(self).wrote(&*final(self), bus, addr, value),
            final(self).prg() == old(self).prg(),
            bus is Ppu && old(self).has_chr_ram() ==> final(self).chr() == old(self).chr().update(
                (mapped_address(0, 0x2000, addr) as int) % (old(self).chr().len() as int),
                value,
            ),
            !(bus is Ppu && old(self).has_chr_ram()) ==> final(self).chr() == old(self).chr(),
            final(self).has_chr_ram() == old(self).has_chr_ram(),
    {
        proof {
            lemma_bank_sizes();
        }
        match bus {
            BusKind::Cpu => (),
            BusKind::Ppu => {
                if let Some(ram) = self.chr_ram.as_mut() {
                    ram.write_mapped(0, 8 * 1024, addr, value)
                }
            },
        }
    }

    fn peek_ppu_fetch(&self, address: u16, _kind: PpuFetchKind) -> (r: Nametable) {
        self.cartridge.mirroring.ppu_fetch(address)
    }
}

impl Nrom {
    /// What a write does to the board.
    pub open spec fn wrote(&self, new: &Nrom, bus: BusKind, addr: u16, value: u8) -> bool {
        &&& new.prg() == self.prg()
        &&& bus is Ppu && self.has_chr_ram() ==> new.chr() == self.chr().update(
                    (mapped_address(0, 0x2000, addr) as int) % (self.chr().len() as int),
                    value,
                )
        &&& !(bus is Ppu && self.has_chr_ram()) ==> new.chr() == self.chr()
        &&& new.has_chr_ram() == self.has_chr_ram()
    }
}

} // verus!
