//! Jaleco J87: fixed 32 KiB PRG, 8 KiB CHR bank from the two low bits of a
//! $6000-$7FFF write, wired in swapped order.
use vstd::prelude::*;

use crate::bus::{AddressBus, AndAndMask, AndEqualsAndMask, BusKind, DeviceKind, MappingFn};
use crate::cartridge::INes;
use crate::mapper::{MapperInput, banked, Mapper, Nametable};
use crate::memory::{lemma_bank_sizes, Memory};
use crate::ppu::PpuFetchKind;

verus! {

pub struct J87 {
    cartridge: INes,
    chr_bank: u8,
}

impl J87 {
    pub closed spec fn prg(&self) -> Seq<u8> {
        self.cartridge.prg_rom@
    }

    pub closed spec fn chr(&self) -> Seq<u8> {
        self.cartridge.chr_rom@
    }

    pub closed spec fn chr_bank(&self) -> u8 {
        self.chr_bank
    }

    /// The image has what the board reads: PRG ROM and a CHR source.
    pub open spec fn usable(cartridge: &INes) -> bool {
        cartridge.prg_rom@.len() > 0 && cartridge.chr_rom@.len() > 0
    }

    /// The board as it comes up at power-on from this image.
    pub open spec fn powered_on(&self, cartridge: INes) -> bool {
        &&& self.prg() == cartridge.prg_rom@
        &&& self.chr() == cartridge.chr_rom@
        &&& self.chr_bank() == 0
        &&& Self::usable(&cartridge) ==> self.wf()
    }

    pub fn new(cartridge: INes) -> (r: J87)
        ensures
            r.powered_on(cartridge),
            r.prg() == cartridge.prg_rom@,
            r.chr() == cartridge.chr_rom@,
            r.chr_bank() == 0,
            Self::usable(&cartridge) ==> r.wf(),
    {
        J87 { cartridge, chr_bank: 0 }
    }
}

impl Mapper for J87 {
    closed spec fn wf(&self) -> bool {
        self.prg().len() > 0 && self.chr().len() > 0
    }

    open spec fn readable(&self, bus: BusKind, addr: u16) -> bool {
        true
    }

    open spec fn writable(&self, bus: BusKind, addr: u16) -> bool {
        true
    }

    closed spec fn accepts(&self, input: MapperInput) -> bool {
        true
    }

    open spec fn fetchable(&self, address: u16) -> bool {
        true
    }

    open spec fn spec_peek(&self, bus: BusKind, addr: u16) -> u8 {
        match bus {
            BusKind::Cpu => banked(self.prg(), 0, 0x8000, addr),
            BusKind::Ppu => banked(self.chr(), self.chr_bank() as usize, 0x2000, addr),
        }
    }

    closed spec fn spec_nametable(&self, address: u16) -> Nametable {
        self.cartridge.mirroring.spec_ppu_fetch(address)
    }

    fn register(&self, cpu: &mut AddressBus)
        ensures
            final(cpu).reads() == old(cpu).reads().push(
                (MappingFn::AndAndMask(AndAndMask(0x8000, 0xffff)), DeviceKind::Mapper),
            ),
            final(cpu).writes() == old(cpu).writes().push(
                (MappingFn::AndEqualsAndMask(AndEqualsAndMask(0xe000, 0x6000, 0x7fff)), DeviceKind::Mapper),
            ),
    {
        cpu.register_read(DeviceKind::Mapper, AndAndMask(0x8000, 0xffff).into());
        cpu.register_write(DeviceKind::Mapper, AndEqualsAndMask(0xe000, 0x6000, 0x7fff).into());
    }

    fn peek(&self, bus: BusKind, addr: u16) -> (r: u8) {
        proof {
            lemma_bank_sizes();
        }
        match bus {
            BusKind::Cpu => self.cartridge.prg_rom.read_mapped(0, 32 * 1024, addr),
            BusKind::Ppu => self.cartridge.chr_rom.read_mapped(self.chr_bank as usize, 8 * 1024, addr),
        }
    }

    /// The CHR bank is bit 1 of the value in bit 0 and bit 0 in bit 1.
    fn write(&mut self, bus: BusKind, _addr: u16, value: u8)
        ensures
            old(self).wrote(&*final(self), bus, _addr, value),
            bus is Cpu ==> final(self).chr_bank() == ((value & 2) >> 1u8) | ((value & 1) << 1u8),
            bus is Ppu ==> final(self).chr_bank() == old(self).chr_bank(),
            final(self).prg() == old(self).prg(),
            final(self).chr() == old(self).chr(),
    {
        match bus {
            BusKind::Cpu => self.chr_bank = (value & 2) >> 1 | (value & 1) << 1,
            BusKind::Ppu => (),
        }
    }

    fn peek_ppu_fetch(&self, address: u16, _kind: PpuFetchKind) -> (r: Nametable) {
        self.cartridge.mirroring.ppu_fetch(address)
    }
}

impl J87 {
    /// What a write does to the board.
    pub open spec fn wrote(&self, new: &J87, bus: BusKind, _addr: u16, value: u8) -> bool {
        &&& bus is Cpu ==> new.chr_bank() == ((value & 2) >> 1u8) | ((value & 1) << 1u8)
        &&& bus is Ppu ==> new.chr_bank() == self.chr_bank()
        &&& new.prg() == self.prg()
        &&& new.chr() == self.chr()
    }
}

} // verus!
