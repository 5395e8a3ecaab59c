//! CNROM: fixed PRG (16 or 32 KiB), 8 KiB CHR ROM bank selected by writes.
use vstd::prelude::*;

use crate::bus::{AddressBus, AndAndMask, BusKind, DeviceKind, MappingFn};
use crate::cartridge::INes;
use crate::mapper::{MapperInput, banked, Mapper, Mirroring, Nametable, SimpleMirroring};
use crate::memory::{lemma_bank_sizes, Memory};
use crate::ppu::PpuFetchKind;

verus! {

pub struct Cnrom {
    cartridge: INes,
    chr_bank: usize,
    mirroring: SimpleMirroring,
    prg_len: usize,
}

impl Cnrom {
    pub closed spec fn prg(&self) -> Seq<u8> {
        self.cartridge.prg_rom@
    }

    pub closed spec fn chr(&self) -> Seq<u8> {
        self.cartridge.chr_rom@
    }

    pub closed spec fn chr_bank(&self) -> usize {
        self.chr_bank
    }

    pub closed spec fn prg_len(&self) -> usize {
        self.prg_len
    }

    /// The image has what the board reads: PRG ROM and a CHR source.
    pub open spec fn usable(cartridge: &INes) -> bool {
        cartridge.prg_rom@.len() > 0 && cartridge.chr_rom@.len() > 0
    }

    /// The board as it comes up at power-on from this image.
    pub open spec fn powered_on(&self, cartridge: INes) -> bool {
        &&& self.prg() == cartridge.prg_rom@
        &&& self.chr() == cartridge.chr_rom@
        &&& self.chr_bank() == 0
        &&& self.prg_len() == cartridge.prg_rom@.len()
        &&& Self::usable(&cartridge) ==> self.wf()
    }

    pub fn new(cartridge: INes) -> (r: Cnrom)
        ensures
            r.powered_on(cartridge),
            r.prg() == cartridge.prg_rom@,
            r.chr() == cartridge.chr_rom@,
            r.chr_bank() == 0,
            r.prg_len() == cartridge.prg_rom@.len(),
            Self::usable(&cartridge) ==> r.wf(),
    {
        let prg_len = cartridge.prg_rom.len();
        Cnrom {
            chr_bank: 0,
            mirroring: SimpleMirroring::new(cartridge.mirroring.into()),
            prg_len,
            cartridge,
        }
    }

    /// PRG is read at the address itself, so the CPU decode must mask it
    /// into the ROM (see `register`).
    fn read_cpu(&self, addr: u16) -> (r: u8)
        requires
            (addr as int) < self.prg().len(),
        ensures
            r == self.prg()[addr as int],
    {
        proof {
            vstd::arithmetic::div_mod::lemma_small_mod(addr as nat, self.prg().len());
        }
        self.cartridge.prg_rom.read(addr as usize)
    }

    fn read_ppu(&self, addr: u16) -> (r: u8)
        requires
            self.chr().len() > 0,
        ensures
            r == banked(self.chr(), self.chr_bank, 0x2000, addr),
    {
        proof {
            lemma_bank_sizes();
        }
        self.cartridge.chr_rom.read_mapped(self.chr_bank, 8 * 1024, addr)
    }

    fn write_cpu(&mut self, _addr: u16, value: u8)
        ensures
            final(self).chr_bank == value as usize,
            final(self).cartridge == old(self).cartridge,
            final(self).mirroring == old(self).mirroring,
            final(self).prg_len == old(self).prg_len,
    {
        self.chr_bank = value as usize;
    }
}

impl Mapper for Cnrom {
    closed spec fn wf(&self) -> bool {
        self.chr().len() > 0 && self.prg_len == self.prg().len() && self.prg_len >= 1
    }

    /// CPU reads land at the masked address inside the PRG ROM.
    open spec fn readable(&self, bus: BusKind, addr: u16) -> bool {
        bus is Cpu ==> (addr as int) < self.prg().len()
    }

    open spec fn writable(&self, bus: BusKind, addr: u16) -> bool {
        true
    }

    closed spec fn accepts(&self, input: MapperInput) -> bool {
        true
    }

    open spec fn fetchable(&self, address: u16) -> bool {
        true
    }

    open spec fn spec_peek(&self, bus: BusKind, addr: u16) -> u8 {
        match bus {
            BusKind::Cpu => self.prg()[addr as int],
            BusKind::Ppu => banked(self.chr(), self.chr_bank(), 0x2000, addr),
        }
    }

    closed spec fn spec_nametable(&self, address: u16) -> Nametable {
        self.mirroring.mirroring.spec_ppu_fetch(address)
    }

    /// Reads are masked to the PRG size (at most 32 KiB).
    fn register(&self, cpu: &mut AddressBus)
        ensures
            final(cpu).reads() == old(cpu).reads().push(
                (
                    MappingFn::AndAndMask(
                        AndAndMask(
                            0x8000,
                            (if self.prg_len() < 0x8000 { self.prg_len() } else { 0x8000 } - 1) as u16,
                        ),
                    ),
                    DeviceKind::Mapper,
                ),
            ),
            final(cpu).writes() == old(cpu).writes().push(
                (MappingFn::AndAndMask(AndAndMask(0x8000, 0xffff)), DeviceKind::Mapper),
            ),
    {
        let len = if self.prg_len < 0x8000 {
            self.prg_len
        } else {
            0x8000
        };
        cpu.register_read(DeviceKind::Mapper, AndAndMask(0x8000, (len - 1) as u16).into());
        cpu.register_write(DeviceKind::Mapper, AndAndMask(0x8000, 0xffff).into());
    }

    fn peek(&self, bus: BusKind, addr: u16) -> (r: u8) {
        match bus {
            BusKind::Cpu => self.read_cpu(addr),
            BusKind::Ppu => self.read_ppu(addr),
        }
    }

    /// A CPU write selects the 8 KiB CHR bank.
    fn write(&mut self, bus: BusKind, addr: u16, value: u8)
        ensures
            old(self).wrote(&*final(self), bus, addr, value),
            bus is Cpu ==> final(self).chr_bank() == value as usize,
            bus is Ppu ==> final(self).chr_bank() == old(self).chr_bank(),
            final(self).prg() == old(self).prg(),
            final(self).chr() == old(self).chr(),
    {
        match bus {
            BusKind::Cpu => self.write_cpu(addr, value),
            BusKind::Ppu => (),
        }
    }

    fn peek_ppu_fetch(&self, address: u16, _kind: PpuFetchKind) -> (r: Nametable) {
        self.mirroring.ppu_fetch(address)
    }
}

impl Cnrom {
    /// What a write does to the board.
    pub open spec fn wrote(&self, new: &Cnrom, bus: BusKind, addr: u16, value: u8) -> bool {
        &&& bus is Cpu ==> new.chr_bank() == value as usize
        &&& bus is Ppu ==> new.chr_bank() == self.chr_bank()
        &&& new.prg() == self.prg()
        &&& new.chr() == self.chr()
    }
}

} // verus!
