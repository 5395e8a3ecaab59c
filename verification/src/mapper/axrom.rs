//! AxROM: 32 KiB switchable PRG, 8 KiB CHR RAM and one-screen mirroring
//! selected by the same register.
use vstd::prelude::*;

use crate::bus::{AddressBus, AndAndMask, BusKind, DeviceKind, MappingFn};
use crate::cartridge::INes;
use crate::mapper::{MapperInput, banked, Mapper, Mirroring, Nametable, SimpleMirroring};
use crate::memory::{lemma_bank_sizes, FixedMemoryBlock, Memory};
use crate::ppu::PpuFetchKind;

verus! {

pub struct Axrom {
    cartridge: INes,
    prg_bank: u8,
    chr_ram: FixedMemoryBlock<8>,
    mirroring: SimpleMirroring,
}

impl Axrom {
    pub closed spec fn prg(&self) -> Seq<u8> {
        self.cartridge.prg_rom@
    }

    pub closed spec fn chr(&self) -> Seq<u8> {
        self.chr_ram@
    }

    pub closed spec fn prg_bank(&self) -> u8 {
        self.prg_bank
    }

    pub closed spec fn mirroring(&self) -> Mirroring {
        self.mirroring.mirroring
    }

    /// The image has what the board reads: PRG ROM and a CHR source.
    pub open spec fn usable(cartridge: &INes) -> bool {
        cartridge.prg_rom@.len() > 0
    }

    /// The board as it comes up at power-on from this image.
    pub open spec fn powered_on(&self, cartridge: INes) -> bool {
        &&& self.prg() == cartridge.prg_rom@
        &&& self.chr() == Seq::new(8 * 1024, |i: int| 0u8)
        &&& self.prg_bank() == 0
        &&& self.mirroring() == cartridge.mirroring.spec_into()
        &&& Self::usable(&cartridge) ==> self.wf()
    }

    pub fn new(cartridge: INes) -> (r: Axrom)
        ensures
            r.powered_on(cartridge),
            r.prg() == cartridge.prg_rom@,
            r.chr() == Seq::new(8 * 1024, |i: int| 0u8),
            r.prg_bank() == 0,
            r.mirroring() == cartridge.mirroring.spec_into(),
            Self::usable(&cartridge) ==> r.wf(),
    {
        Axrom {
            prg_bank: 0,
            chr_ram: FixedMemoryBlock::new(),
            mirroring: SimpleMirroring::new(cartridge.mirroring.into()),
            cartridge,
        }
    }

    fn read_cpu(&self, addr: u16) -> (r: u8)
        requires
            self.prg().len() > 0,
        ensures
            r == banked(self.prg(), self.prg_bank as usize, 0x8000, addr),
    {
        proof {
            lemma_bank_sizes();
        }
        self.cartridge.prg_rom.read_mapped(self.prg_bank as usize, 32 * 1024, addr)
    }

    /// Bits 0-2 select the PRG bank, bit 4 the nametable page.
    fn write_cpu(&mut self, _addr: u16, value: u8)
        ensures
            final(self).prg_bank == value & 7,
            final(self).mirroring.mirroring == if value & 0x10 == 0 {
                Mirroring::Single(Nametable::InternalA)
            } else {
                Mirroring::Single(Nametable::InternalB)
            },
            final(self).chr_ram == old(self).chr_ram,
            final(self).cartridge == old(self).cartridge,
    {
        self.prg_bank = value & 7;
        if value & 0x10 == 0 {
            self.mirroring.internal_a()
        } else {
            self.mirroring.internal_b()
        }
    }

    fn read_ppu(&self, addr: u16) -> (r: u8)
        requires
            self.chr_ram.wf(),
        ensures
            r == self.chr()[(addr as int) % 0x2000],
    {
        self.chr_ram.read(addr)
    }

    fn write_ppu(&mut self, addr: u16, value: u8)
        requires
            old(self).chr_ram.wf(),
        ensures
            final(self).chr_ram.wf(),
            final(self).chr() == old(self).chr().update((addr as int) % 0x2000, value),
            final(self).prg_bank == old(self).prg_bank,
            final(self).mirroring == old(self).mirroring,
            final(self).cartridge == old(self).cartridge,
    {
        self.chr_ram.write(addr, value);
    }
}

impl Mapper for Axrom {
    closed spec fn wf(&self) -> bool {
        self.prg().len() > 0 && self.chr_ram.wf()
    }

    open spec fn readable(&self, bus: BusKind, addr: u16) -> bool {
        true
    }

    open spec fn writable(&self, bus: BusKind, addr: u16) -> bool {
        true
    }

    closed spec fn accepts(&self, input: MapperInput) -> bool {
        true
    }

    open spec fn fetchable(&self, address: u16) -> bool {
        true
    }

    open spec fn spec_peek(&self, bus: BusKind, addr: u16) -> u8 {
        match bus {
            BusKind::Cpu => banked(self.prg(), self.prg_bank() as usize, 0x8000, addr),
            BusKind::Ppu => self.chr()[(addr as int) % 0x2000],
        }
    }

    closed spec fn spec_nametable(&self, address: u16) -> Nametable {
        self.mirroring().spec_ppu_fetch(address)
    }

    fn register(&self, cpu: &mut AddressBus)
        ensures
            final(cpu).reads() == old(cpu).reads().push(
                (MappingFn::AndAndMask(AndAndMask(0x8000, 0xffff)), DeviceKind::Mapper),
            ),
            final(cpu).writes() == old(cpu).writes().push(
                (MappingFn::AndAndMask(AndAndMask(0x8000, 0xffff)), DeviceKind::Mapper),
            ),
    {
        cpu.register_read(DeviceKind::Mapper, AndAndMask(0x8000, 0xffff).into());
        cpu.register_write(DeviceKind::Mapper, AndAndMask(0x8000, 0xffff).into());
    }

    fn peek(&self, bus: BusKind, addr: u16) -> (r: u8) {
        match bus {
            BusKind::Cpu => self.read_cpu(addr),
            BusKind::Ppu => self.read_ppu(addr),
        }
    }

    /// CPU writes set the bank and mirroring; PPU writes go to CHR RAM.
    fn write(&mut self, bus: BusKind, addr: u16, value: u8)
        ensures
            old(self).wrote(&*final(self), bus, addr, value),
            bus is Cpu ==> final(self).prg_bank() == value & 7 && final(self).mirroring() == if value
                & 0x10 == 0 {
                Mirroring::Single(Nametable::InternalA)
            } else {
                Mirroring::Single(Nametable::InternalB)
            } && final(self).chr() == old(self).chr(),
            bus is Ppu ==> final(self).chr() == old(self).chr().update((addr as int) % 0x2000, value)
                && final(self).prg_bank() == old(self).prg_bank() && final(self).mirroring() == old(
                self,
            ).mirroring(),
            final(self).prg() == old(self).prg(),
    {
        match bus {
            BusKind::Cpu => self.write_cpu(addr, value),
            BusKind::Ppu => self.write_ppu(addr, value),
        }
    }

    fn peek_ppu_fetch(&self, address: u16, _kind: PpuFetchKind) -> (r: Nametable) {
        self.mirroring.ppu_fetch(address)
    }
}

impl Axrom {
    /// What a write does to the board.
    pub open spec fn wrote(&self, new: &Axrom, bus: BusKind, addr: u16, value: u8) -> bool {
        &&& bus is Cpu ==> new.prg_bank() == value & 7 && new.mirroring() == if value
                    & 0x10 == 0 {
                    Mirroring::Single(Nametable::InternalA)
                } else {
                    Mirroring::Single(Nametable::InternalB)
                } && new.chr() == self.chr()
        &&& bus is Ppu ==> new.chr() == self.chr().update((addr as int) % 0x2000, value)
                    && new.prg_bank() == self.prg_bank() && new.mirroring() == self.mirroring()
        &&& new.prg() == self.prg()
    }
}

} // verus!
