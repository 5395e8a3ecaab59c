//! BxROM: 32 KiB switchable PRG bank selected by any write, 8 KiB CHR RAM.
use vstd::prelude::*;

use crate::bus::{AddressBus, AndAndMask, BusKind, DeviceKind, MappingFn};
use crate::cartridge::INes;
use crate::mapper::{MapperInput, banked, banked_index, Mapper, Nametable};
use crate::memory::{lemma_bank_sizes, mapped_address, Memory, MemoryBlock};
use crate::ppu::PpuFetchKind;

verus! {

pub struct Bxrom {
    cartridge: INes,
    prg_bank: u8,
    chr_ram: MemoryBlock,
}

impl Bxrom {
    pub closed spec fn prg(&self) -> Seq<u8> {
        self.cartridge.prg_rom@
    }

    pub closed spec fn chr(&self) -> Seq<u8> {
        self.chr_ram@
    }

    pub closed spec fn prg_bank(&self) -> u8 {
        self.prg_bank
    }

    /// The image has what the board reads: PRG ROM and a CHR source.
    pub open spec fn usable(cartridge: &INes) -> bool {
        cartridge.prg_rom@.len() > 0
    }

    /// The board as it comes up at power-on from this image.
    pub open spec fn powered_on(&self, cartridge: INes) -> bool {
        &&& self.prg() == cartridge.prg_rom@
        &&& self.chr() == Seq::new(8 * 1024, |i: int| 0u8)
        &&& self.prg_bank() == 0
        &&& Self::usable(&cartridge) ==> self.wf()
    }

    pub fn new(cartridge: INes) -> (r: Bxrom)
        ensures
            r.powered_on(cartridge),
            r.prg() == cartridge.prg_rom@,
            r.chr() == Seq::new(8 * 1024, |i: int| 0u8),
            r.prg_bank() == 0,
            Self::usable(&cartridge) ==> r.wf(),
    {
        Self { prg_bank: 0, chr_ram: MemoryBlock::new(8), cartridge }
    }
}

impl Mapper for Bxrom {
    closed spec fn wf(&self) -> bool {
        self.prg().len() > 0 && self.chr().len() > 0
    }

    open spec fn readable(&self, bus: BusKind, addr: u16) -> bool {
        true
    }

    open spec fn writable(&self, bus: BusKind, addr: u16) -> bool {
        true
    }

    closed spec fn accepts(&self, input: MapperInput) -> bool {
        true
    }

    open spec fn fetchable(&self, address: u16) -> bool {
        true
    }

    open spec fn spec_peek(&self, bus: BusKind, addr: u16) -> u8 {
        match bus {
            BusKind::Cpu => banked(self.prg(), self.prg_bank() as usize, 0x8000, addr),
            BusKind::Ppu => banked(self.chr(), 0, 0x2000, addr),
        }
    }

    closed spec fn spec_nametable(&self, address: u16) -> Nametable {
        self.cartridge.mirroring.spec_ppu_fetch(address)
    }

    fn register(&self, cpu: &mut AddressBus)
        ensures
            final(cpu).reads() == old(cpu).reads().push(
                (MappingFn::AndAndMask(AndAndMask(0x8000, 0xffff)), DeviceKind::Mapper),
            ),
            final(cpu).writes() == old(cpu).writes().push(
                (MappingFn::AndAndMask(AndAndMask(0x8000, 0xffff)), DeviceKind::Mapper),
            ),
    {
        cpu.register_read(DeviceKind::Mapper, AndAndMask(0x8000, 0xffff).into());
        cpu.register_write(DeviceKind::Mapper, AndAndMask(0x8000, 0xffff).into());
    }

    fn peek(&self, bus: BusKind, addr: u16) -> (r: u8) {
        proof {
            lemma_bank_sizes();
        }
        match bus {
            BusKind::Cpu => self.cartridge.prg_rom.read_mapped(self.prg_bank as usize, 32 * 1024, addr),
            BusKind::Ppu => self.chr_ram.read_mapped(0, 8 * 1024, addr),
        }
    }

    /// A CPU write selects the PRG bank; PPU writes go to CHR RAM.
    fn write(&mut self, bus: BusKind, addr: u16, value: u8)
        ensures
            old(self).wrote(&*final(self), bus, addr, value),
            bus is Cpu ==> final(self).prg_bank() == value && final(self).chr() == old(self).chr(),
            bus is Ppu ==> final(self).chr() == old(self).chr().update(
                banked_index(old(self).chr(), 0, 0x2000, addr),
                value,
            ) && final(self).prg_bank() == old(self).prg_bank(),
            final(self).prg() == old(self).prg(),
    {
        proof {
            lemma_bank_sizes();
        }
        match bus {
            BusKind::Cpu => self.prg_bank = value,
            BusKind::Ppu => self.chr_ram.write_mapped(0, 8 * 1024, addr, value),
        }
    }

    fn peek_ppu_fetch(&self, address: u16, _kind: PpuFetchKind) -> (r: Nametable) {
        self.cartridge.mirroring.ppu_fetch(address)
    }
}

impl Bxrom {
    /// What a write does to the board.
    pub open spec fn wrote(&self, new: &Bxrom, bus: BusKind, addr: u16, value: u8) -> bool {
        &&& bus is Cpu ==> new.prg_bank() == value && new.chr() == self.chr()
        &&& bus is Ppu ==> new.chr() == self.chr().update(
                    banked_index(self.chr(), 0, 0x2000, addr),
                    value,
                ) && new.prg_bank() == self.prg_bank()
        &&& new.prg() == self.prg()
    }
}

} // verus!
