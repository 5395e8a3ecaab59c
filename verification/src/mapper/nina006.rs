//! NINA-003/006: 32 KiB PRG and 8 KiB CHR banks selected by writes to
//! $4100-$5FFF (with A8 set).
use vstd::prelude::*;

use crate::bus::{AddressBus, AndAndMask, AndEqualsAndMask, BusKind, DeviceKind, MappingFn};
use crate::cartridge::INes;
use crate::mapper::{MapperInput, banked, Mapper, Nametable};
use crate::memory::{lemma_bank_sizes, Memory};
use crate::ppu::PpuFetchKind;

verus! {

pub struct Nina006 {
    cartridge: INes,
    prg_bank: u8,
    chr_bank: u8,
}

impl Nina006 {
    pub closed spec fn chr_bank_now(&self) -> u8 {
        self.chr_bank
    }

    pub closed spec fn prg_bank_now(&self) -> u8 {
        self.prg_bank
    }

    pub closed spec fn prg(&self) -> Seq<u8> {
        self.cartridge.prg_rom@
    }

    pub closed spec fn chr(&self) -> Seq<u8> {
        self.cartridge.chr_rom@
    }

    pub closed spec fn banks(&self) -> (u8, u8) {
        (self.prg_bank, self.chr_bank)
    }

    /// The image has what the board reads: PRG ROM and a CHR source.
    pub open spec fn usable(cartridge: &INes) -> bool {
        cartridge.prg_rom@.len() > 0 && cartridge.chr_rom@.len() > 0
    }

    /// The board as it comes up at power-on from this image.
    pub open spec fn powered_on(&self, cartridge: INes) -> bool {
        &&& self.prg() == cartridge.prg_rom@
        &&& self.chr() == cartridge.chr_rom@
        &&& self.banks() == (0u8, 0u8)
        &&& Self::usable(&cartridge) ==> self.wf()
    }

    pub fn new(cartridge: INes) -> (r: Self)
        ensures
            r.powered_on(cartridge),
            r.prg() == cartridge.prg_rom@,
            r.chr() == cartridge.chr_rom@,
            r.banks() == (0u8, 0u8),
            Self::usable(&cartridge) ==> r.wf(),
    {
        Self { cartridge, prg_bank: 0, chr_bank: 0 }
    }
}

impl Mapper for Nina006 {
    closed spec fn wf(&self) -> bool {
        self.prg().len() > 0 && self.chr().len() > 0
    }

    open spec fn readable(&self, bus: BusKind, addr: u16) -> bool {
        true
    }

    open spec fn writable(&self, bus: BusKind, addr: u16) -> bool {
        true
    }

    closed spec fn accepts(&self, input: MapperInput) -> bool {
        true
    }

    open spec fn fetchable(&self, address: u16) -> bool {
        true
    }

    open spec fn spec_peek(&self, bus: BusKind, addr: u16) -> u8 {
        match bus {
            BusKind::Cpu => banked(self.prg(), self.prg_bank_now() as usize, 0x8000, addr),
            BusKind::Ppu => banked(self.chr(), self.chr_bank_now() as usize, 0x2000, addr),
        }
    }

    closed spec fn spec_nametable(&self, address: u16) -> Nametable {
        self.cartridge.mirroring.spec_ppu_fetch(address)
    }

    fn register(&self, cpu: &mut AddressBus)
        ensures
            final(cpu).reads() == old(cpu).reads().push(
                (MappingFn::AndAndMask(AndAndMask(0x8000, 0xffff)), DeviceKind::Mapper),
            ),
            final(cpu).writes() == old(cpu).writes().push(
                (MappingFn::AndEqualsAndMask(AndEqualsAndMask(0xE100, 0x4100, 0xffff)), DeviceKind::Mapper),
            ),
    {
        cpu.register_read(DeviceKind::Mapper, AndAndMask(0x8000, 0xffff).into());
        cpu.register_write(DeviceKind::Mapper, AndEqualsAndMask(0xE100, 0x4100, 0xffff).into());
    }

    fn peek(&self, bus: BusKind, addr: u16) -> (r: u8) {
        proof {
            lemma_bank_sizes();
        }
        match bus {
            BusKind::Cpu => self.cartridge.prg_rom.read_mapped(self.prg_bank as usize, 32 * 1024, addr),
            BusKind::Ppu => self.cartridge.chr_rom.read_mapped(self.chr_bank as usize, 8 * 1024, addr),
        }
    }

    /// Bit 3 selects the PRG bank, bits 0-2 the CHR bank.
    fn write(&mut self, bus: BusKind, _addr: u16, value: u8)
        ensures
            old(self).wrote(&*final(self), bus, _addr, value),
            bus is Cpu ==> final(self).banks() == ((value / 8) % 2, value % 8),
            bus is Ppu ==> final(self).banks() == old(self).banks(),
            final(self).prg() == old(self).prg(),
            final(self).chr() == old(self).chr(),
    {
        proof {
            crate::bits::lemma_u8(value);
            crate::bits::lemma_u8(value >> 3u8);
        }
        match bus {
            BusKind::Cpu => {
                self.prg_bank = (value >> 3) & 1;
                self.chr_bank = value & 7;
            },
            _ => (),
        }
    }

    fn peek_ppu_fetch(&self, address: u16, _kind: PpuFetchKind) -> (r: Nametable) {
        self.cartridge.mirroring.ppu_fetch(address)
    }
}

impl Nina006 {
    /// What a write does to the board.
    pub open spec fn wrote(&self, new: &Nina006, bus: BusKind, _addr: u16, value: u8) -> bool {
        &&& bus is Cpu ==> new.banks() == ((value / 8) % 2, value % 8)
        &&& bus is Ppu ==> new.banks() == self.banks()
        &&& new.prg() == self.prg()
        &&& new.chr() == self.chr()
    }
}

} // verus!
