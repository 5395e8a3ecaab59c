//! NINA-001: 32 KiB PRG bank and two 4 KiB CHR banks, with the bank
//! registers mirrored over the top of 8 KiB PRG RAM.
use vstd::prelude::*;

use crate::bus::{AddressBus, AndAndMask, AndEqualsAndMask, BusKind, DeviceKind, MappingFn};
use crate::cartridge::INes;
use crate::mapper::{MapperInput, banked, Mapper, Nametable, SaveWram};
use crate::memory::{lemma_bank_sizes, FixedMemoryBlock, Memory};
use crate::ppu::PpuFetchKind;

verus! {

pub struct Nina001 {
    cartridge: INes,
    prg_ram: FixedMemoryBlock<8>,
    prg_bank: u8,
    chr_banks: [u8; 2],
}

impl Nina001 {
    pub closed spec fn prg(&self) -> Seq<u8> {
        self.cartridge.prg_rom@
    }

    pub closed spec fn chr(&self) -> Seq<u8> {
        self.cartridge.chr_rom@
    }

    pub closed spec fn ram(&self) -> Seq<u8> {
        self.prg_ram@
    }

    pub closed spec fn prg_bank(&self) -> u8 {
        self.prg_bank
    }

    pub closed spec fn chr_banks(&self) -> Seq<u8> {
        self.chr_banks@
    }

    pub closed spec fn battery(&self) -> bool {
        self.cartridge.battery
    }

    /// The image has what the board reads: PRG ROM and a CHR source.
    pub open spec fn usable(cartridge: &INes) -> bool {
        cartridge.prg_rom@.len() > 0 && cartridge.chr_rom@.len() > 0
    }

    /// The board as it comes up at power-on from this image.
    pub open spec fn powered_on(&self, cartridge: INes) -> bool {
        &&& self.prg() == cartridge.prg_rom@
        &&& self.chr() == cartridge.chr_rom@
        &&& self.prg_bank() == 0
        &&& self.chr_banks() == seq![0u8, 0]
        &&& self.ram().len() == 8 * 1024
        &&& forall|i: int|
                0 <= i < 8 * 1024 ==> #[trigger] self.ram()[i] == match cartridge.wram {
                    Some(w) => if i < w@.len() { w@[i] } else { 0u8 },
                    None => 0u8,
                }
        &&& Self::usable(&cartridge) ==> self.wf()
    }

    /// PRG RAM starts zeroed, overlaid with the saved RAM if any.
    pub fn new(cartridge: INes) -> (r: Nina001)
        ensures
            r.powered_on(cartridge),
            r.prg() == cartridge.prg_rom@,
            r.chr() == cartridge.chr_rom@,
            r.prg_bank() == 0,
            r.chr_banks() == seq![0u8, 0],
            r.ram().len() == 8 * 1024,
            forall|i: int|
                0 <= i < 8 * 1024 ==> #[trigger] r.ram()[i] == match cartridge.wram {
                    Some(w) => if i < w@.len() { w@[i] } else { 0u8 },
                    None => 0u8,
                },
            Self::usable(&cartridge) ==> r.wf(),
    {
        let mut cartridge = cartridge;
        let mut prg_ram = FixedMemoryBlock::new();
        if let Some(wram) = cartridge.wram.take() {
            prg_ram.restore_wram(wram);
        }
        let r = Self { cartridge, prg_ram, prg_bank: 0, chr_banks: [0; 2] };
        assert(r.chr_banks@ =~= seq![0u8, 0]);
        r
    }
}

impl Mapper for Nina001 {
    closed spec fn wf(&self) -> bool {
        self.prg().len() > 0 && self.chr().len() > 0 && self.prg_ram.wf()
    }

    open spec fn readable(&self, bus: BusKind, addr: u16) -> bool {
        true
    }

    open spec fn writable(&self, bus: BusKind, addr: u16) -> bool {
        true
    }

    closed spec fn accepts(&self, input: MapperInput) -> bool {
        true
    }

    open spec fn fetchable(&self, address: u16) -> bool {
        true
    }

    open spec fn spec_peek(&self, bus: BusKind, addr: u16) -> u8 {
        match bus {
            BusKind::Cpu => if addr & 0x8000 == 0 {
                self.ram()[(addr as int) % 0x2000]
            } else {
                banked(self.prg(), self.prg_bank() as usize, 0x8000, addr)
            },
            BusKind::Ppu => banked(
                self.chr(),
                self.chr_banks()[if addr & 0x1000 == 0 { 0int } else { 1int }] as usize,
                0x1000,
                addr,
            ),
        }
    }

    closed spec fn spec_nametable(&self, address: u16) -> Nametable {
        self.cartridge.mirroring.spec_ppu_fetch(address)
    }

    fn register(&self, cpu: &mut AddressBus)
        ensures
            final(cpu).reads() == old(cpu).reads().push(
                (MappingFn::AndEqualsAndMask(AndEqualsAndMask(0xe000, 0x6000, 0x7fff)), DeviceKind::Mapper),
            ).push((MappingFn::AndAndMask(AndAndMask(0x8000, 0xffff)), DeviceKind::Mapper)),
            final(cpu).writes() == old(cpu).writes().push(
                (MappingFn::AndEqualsAndMask(AndEqualsAndMask(0xe000, 0x6000, 0x7fff)), DeviceKind::Mapper),
            ),
    {
        cpu.register_read(DeviceKind::Mapper, AndEqualsAndMask(0xe000, 0x6000, 0x7fff).into());
        cpu.register_write(DeviceKind::Mapper, AndEqualsAndMask(0xe000, 0x6000, 0x7fff).into());
        cpu.register_read(DeviceKind::Mapper, AndAndMask(0x8000, 0xffff).into());
    }

    fn peek(&self, bus: BusKind, addr: u16) -> (r: u8) {
        proof {
            lemma_bank_sizes();
        }
        match bus {
            BusKind::Cpu => {
                if addr & 0x8000 == 0 {
                    self.prg_ram.read(addr)
                } else {
                    self.cartridge.prg_rom.read_mapped(self.prg_bank as usize, 32 * 1024, addr)
                }
            },
            BusKind::Ppu => {
                let bank_idx: usize = if addr & 0x1000 == 0 {
                    0
                } else {
                    1
                };
                let bank = self.chr_banks[bank_idx] as usize;
                self.cartridge.chr_rom.read_mapped(bank, 4 * 1024, addr)
            },
        }
    }

    /// $7FFD-$7FFF hold the bank registers; every CPU write also lands in RAM.
    fn write(&mut self, bus: BusKind, addr: u16, value: u8)
        ensures
            old(self).wrote(&*final(self), bus, addr, value),
            bus is Cpu ==> final(self).ram() == old(self).ram().update((addr as int) % 0x2000, value)
                && final(self).prg_bank() == if addr == 0x7ffd {
                value & 3
            } else {
                old(self).prg_bank()
            } && final(self).chr_banks() == if addr == 0x7ffe {
                old(self).chr_banks().update(0, value & 0xf)
            } else if addr == 0x7fff {
                old(self).chr_banks().update(1, value & 0xf)
            } else {
                old(self).chr_banks()
            },
            bus is Ppu ==> final(self).ram() == old(self).ram() && final(self).prg_bank() == old(
                self,
            ).prg_bank() && final(self).chr_banks() == old(self).chr_banks(),
            final(self).prg() == old(self).prg(),
            final(self).chr() == old(self).chr(),
            final(self).battery() == old(self).battery(),
    {
        match bus {
            BusKind::Cpu => {
                if addr == 0x7ffd {
                    self.prg_bank = value & 0x3;
                } else if addr == 0x7ffe {
                    self.chr_banks[0] = value & 0xf;
                } else if addr == 0x7fff {
                    self.chr_banks[1] = value & 0xf;
                }
                self.prg_ram.write(addr, value);
            },
            BusKind::Ppu => (),
        }
    }

    fn peek_ppu_fetch(&self, address: u16, _kind: PpuFetchKind) -> (r: Nametable) {
        self.cartridge.mirroring.ppu_fetch(address)
    }

    /// Battery-backed boards save their PRG RAM.
    fn save_wram(&self) -> (r: Option<SaveWram>)
        ensures
            self.wram_is(r),
            self.battery() ==> (r matches Some(w) && w@ == self.ram()),
            !self.battery() ==> r is None,
    {
        if self.cartridge.battery {
            self.prg_ram.save_wram()
        } else {
            None
        }
    }
}

impl Nina001 {
    /// What a write does to the board.
    pub open spec fn wrote(&self, new: &Nina001, bus: BusKind, addr: u16, value: u8) -> bool {
        &&& bus is Cpu ==> new.ram() == self.ram().update((addr as int) % 0x2000, value)
                    && new.prg_bank() == if addr == 0x7ffd {
                    value & 3
                } else {
                    self.prg_bank()
                } && new.chr_banks() == if addr == 0x7ffe {
                    self.chr_banks().update(0, value & 0xf)
                } else if addr == 0x7fff {
                    self.chr_banks().update(1, value & 0xf)
                } else {
                    self.chr_banks()
                }
        &&& bus is Ppu ==> new.ram() == self.ram() && new.prg_bank() == self.prg_bank() && new.chr_banks() == self.chr_banks()
        &&& new.prg() == self.prg()
        &&& new.chr() == self.chr()
        &&& new.battery() == self.battery()
    }

    /// The battery-backed RAM the board hands out.
    pub open spec fn wram_is(&self, r: Option<SaveWram>) -> bool {
        &&& self.battery() ==> (r matches Some(w) && w@ == self.ram())
        &&& !self.battery() ==> r is None
    }
}

} // verus!
