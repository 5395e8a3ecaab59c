//! UxROM: 16 KiB switchable PRG at $8000, last bank fixed at $C000, CHR
//! RAM or ROM; alternative mirroring gives one-screen or four-screen
//! nametables.
use vstd::prelude::*;

use crate::bus::{AddressBus, AndAndMask, BusKind, DeviceKind, MappingFn};
use crate::cartridge::{CartMirroring, INes};
use crate::mapper::{MapperInput, banked, Mapper, Mirroring, Nametable};
use crate::memory::{lemma_bank_sizes, FixedMemoryBlock, Memory};
use crate::ppu::PpuFetchKind;

verus! {

pub struct Uxrom {
    cartridge: INes,
    prg_banks: [u8; 2],
    chr_ram: Option<FixedMemoryBlock<8>>,
    nt_ram: Option<FixedMemoryBlock<2>>,
    mirroring: Mirroring,
}

impl Uxrom {
    pub closed spec fn prg(&self) -> Seq<u8> {
        self.cartridge.prg_rom@
    }

    pub closed spec fn prg_banks(&self) -> Seq<u8> {
        self.prg_banks@
    }

    pub closed spec fn mirroring(&self) -> Mirroring {
        self.mirroring
    }

    pub closed spec fn has_chr_ram(&self) -> bool {
        self.chr_ram is Some
    }

    pub closed spec fn has_nt_ram(&self) -> bool {
        self.nt_ram is Some
    }

    /// The image has what the board reads: PRG ROM and a CHR source.
    pub open spec fn usable(cartridge: &INes) -> bool {
        cartridge.chr_ram_bytes > 0 || cartridge.chr_rom@.len() > 0
    }

    /// The board as it comes up at power-on from this image.
    pub open spec fn powered_on(&self, cartridge: INes) -> bool {
        &&& self.prg() == cartridge.prg_rom@
        &&& self.prg_banks() == seq![0u8, (cartridge.prg_rom@.len() / 0x4000 - 1) as u8]
        &&& self.has_chr_ram() == (cartridge.chr_ram_bytes > 0)
        &&& cartridge.alternative_mirroring ==> match cartridge.mirroring {
                CartMirroring::Horizontal => self.mirroring() == Mirroring::Single(Nametable::InternalA)
                    && !self.has_nt_ram(),
                CartMirroring::Vertical => self.mirroring() == Mirroring::FourScreen && self.has_nt_ram(),
            }
        &&& !cartridge.alternative_mirroring ==> self.mirroring() == cartridge.mirroring.spec_into()
                && !self.has_nt_ram()
        &&& Self::usable(&cartridge) ==> self.wf()
    }

    /// The switchable bank starts at 0 and the fixed bank is the last
    /// 16 KiB bank of the ROM (its number kept to 8 bits, as the bank
    /// register is).
    pub fn new(cartridge: INes) -> (r: Uxrom)
        requires
            cartridge.prg_rom@.len() >= 0x4000,
        ensures
            r.powered_on(cartridge),
            r.prg() == cartridge.prg_rom@,
            r.prg_banks() == seq![0u8, (cartridge.prg_rom@.len() / 0x4000 - 1) as u8],
            r.has_chr_ram() == (cartridge.chr_ram_bytes > 0),
            cartridge.alternative_mirroring ==> match cartridge.mirroring {
                CartMirroring::Horizontal => r.mirroring() == Mirroring::Single(Nametable::InternalA)
                    && !r.has_nt_ram(),
                CartMirroring::Vertical => r.mirroring() == Mirroring::FourScreen && r.has_nt_ram(),
            },
            !cartridge.alternative_mirroring ==> r.mirroring() == cartridge.mirroring.spec_into()
                && !r.has_nt_ram(),
            Self::usable(&cartridge) ==> r.wf(),
    {
        let fixed_bank = ((cartridge.prg_rom.len() / 0x4000) - 1) as u8;

        let chr_ram = if cartridge.chr_ram_bytes > 0 {
            Some(FixedMemoryBlock::new())
        } else {
            None
        };

        let (mirroring, nt_ram) = if cartridge.alternative_mirroring {
            match cartridge.mirroring {
                CartMirroring::Horizontal => (Mirroring::Single(Nametable::InternalA), None),
                CartMirroring::Vertical => (Mirroring::FourScreen, Some(FixedMemoryBlock::new())),
            }
        } else {
            (cartridge.mirroring.into(), None)
        };

        let r = Uxrom { prg_banks: [0, fixed_bank], chr_ram, nt_ram, mirroring, cartridge };
        assert(r.prg_banks@ =~= seq![0u8, fixed_bank]);
        r
    }

    pub closed spec fn chr(&self) -> Seq<u8> {
        match self.chr_ram {
            Some(ram) => ram@,
            None => self.cartridge.chr_rom@,
        }
    }

    pub closed spec fn nt(&self) -> Seq<u8> {
        match self.nt_ram {
            Some(ram) => ram@,
            None => Seq::empty(),
        }
    }

    fn read_cpu(&self, addr: u16) -> (r: u8)
        requires
            addr >= 0x8000,
            self.prg().len() > 0,
        ensures
            r == banked(self.prg(), self.prg_banks@[if addr < 0xc000 { 0int } else { 1int }] as usize, 0x4000, addr),
    {
        let bank_idx: usize = if addr < 0xc000 {
            0
        } else {
            1
        };
        let bank = self.prg_banks[bank_idx] as usize;
        proof {
            lemma_bank_sizes();
        }
        self.cartridge.prg_rom.read_mapped(bank, 16 * 1024, addr)
    }
}

impl Mapper for Uxrom {
    closed spec fn wf(&self) -> bool {
        &&& self.prg().len() > 0
        &&& match self.chr_ram {
            Some(ram) => ram.wf(),
            None => self.cartridge.chr_rom@.len() > 0,
        }
        &&& match self.nt_ram {
            Some(ram) => ram.wf(),
            None => true,
        }
    }

    /// The CPU side is only mapped at $8000 and above.
    open spec fn readable(&self, bus: BusKind, addr: u16) -> bool {
        bus is Cpu ==> addr >= 0x8000
    }

    open spec fn writable(&self, bus: BusKind, addr: u16) -> bool {
        true
    }

    closed spec fn accepts(&self, input: MapperInput) -> bool {
        true
    }

    open spec fn fetchable(&self, address: u16) -> bool {
        true
    }

    open spec fn spec_peek(&self, bus: BusKind, addr: u16) -> u8 {
        match bus {
            BusKind::Cpu => banked(
                self.prg(),
                self.prg_banks()[if addr < 0xc000 { 0int } else { 1int }] as usize,
                0x4000,
                addr,
            ),
            BusKind::Ppu => if addr & 0x2000 != 0 {
                if self.has_nt_ram() {
                    self.nt()[(addr as int) % 0x800]
                } else {
                    0
                }
            } else if self.has_chr_ram() {
                self.chr()[(addr as int) % 0x2000]
            } else {
                banked(self.chr(), 0, 0x2000, addr)
            },
        }
    }

    closed spec fn spec_nametable(&self, address: u16) -> Nametable {
        self.mirroring.spec_ppu_fetch(address)
    }

    fn register(&self, cpu: &mut AddressBus)
        ensures
            final(cpu).reads() == old(cpu).reads().push(
                (MappingFn::AndAndMask(AndAndMask(0x8000, 0xffff)), DeviceKind::Mapper),
            ),
            final(cpu).writes() == old(cpu).writes().push(
                (MappingFn::AndAndMask(AndAndMask(0x8000, 0xffff)), DeviceKind::Mapper),
            ),
    {
        cpu.register_read(DeviceKind::Mapper, AndAndMask(0x8000, 0xffff).into());
        cpu.register_write(DeviceKind::Mapper, AndAndMask(0x8000, 0xffff).into());
    }

    fn peek(&self, bus: BusKind, addr: u16) -> (r: u8) {
        match bus {
            BusKind::Cpu => self.read_cpu(addr),
            BusKind::Ppu => {
                if addr & 0x2000 != 0 {
                    if let Some(nt_ram) = self.nt_ram.as_ref() {
                        nt_ram.read(addr)
                    } else {
                        0
                    }
                } else if let Some(ram) = self.chr_ram.as_ref() {
                    ram.read(addr)
                } else {
                    proof {
                        lemma_bank_sizes();
                    }
                    self.cartridge.chr_rom.read_mapped(0, 8 * 1024, addr)
                }
            },
        }
    }

    /// A CPU write selects the switchable bank; PPU writes go to CHR RAM
    /// or the extra nametable RAM when present.
    fn write(&mut self, bus: BusKind, addr: u16, value: u8)
        ensures
            old(self).wrote(&*final(self), bus, addr, value),
            bus is Cpu ==> final(self).prg_banks() == old(self).prg_banks().update(0, value)
                && final(self).chr() == old(self).chr() && final(self).nt() == old(self).nt(),
            bus is Ppu ==> final(self).prg_banks() == old(self).prg_banks() && (if addr & 0x2000 != 0 {
                final(self).chr() == old(self).chr() && (if old(self).has_nt_ram() {
                    final(self).nt() == old(self).nt().update((addr as int) % 0x800, value)
                } else {
                    final(self).nt() == old(self).nt()
                })
            } else {
                final(self).nt() == old(self).nt() && (if old(self).has_chr_ram() {
                    final(self).chr() == old(self).chr().update((addr as int) % 0x2000, value)
                } else {
                    final(self).chr() == old(self).chr()
                })
            }),
            final(self).prg() == old(self).prg(),
            final(self).mirroring() == old(self).mirroring(),
            final(self).has_chr_ram() == old(self).has_chr_ram(),
            final(self).has_nt_ram() == old(self).has_nt_ram(),
    {
        match bus {
            BusKind::Cpu => {
                self.prg_banks[0] = value;
            },
            BusKind::Ppu => {
                if addr & 0x2000 != 0 {
                    if let Some(nt_ram) = self.nt_ram.as_mut() {
                        nt_ram.write(addr, value);
                    }
                } else if let Some(ram) = self.chr_ram.as_mut() {
                    ram.write(addr, value);
                }
            },
        }
    }

    fn peek_ppu_fetch(&self, address: u16, _kind: PpuFetchKind) -> (r: Nametable) {
        self.mirroring.ppu_fetch(address)
    }
}

impl Uxrom {
    /// What a write does to the board.
    pub open spec fn wrote(&self, new: &Uxrom, bus: BusKind, addr: u16, value: u8) -> bool {
        &&& bus is Cpu ==> new.prg_banks() == self.prg_banks().update(0, value)
                    && new.chr() == self.chr() && new.nt() == self.nt()
        &&& bus is Ppu ==> new.prg_banks() == self.prg_banks() && (if addr & 0x2000 != 0 {
                    new.chr() == self.chr() && (if self.has_nt_ram() {
                        new.nt() == self.nt().update((addr as int) % 0x800, value)
                    } else {
                        new.nt() == self.nt()
                    })
                } else {
                    new.nt() == self.nt() && (if self.has_chr_ram() {
                        new.chr() == self.chr().update((addr as int) % 0x2000, value)
                    } else {
                        new.chr() == self.chr()
                    })
                })
        &&& new.prg() == self.prg()
        &&& new.mirroring() == self.mirroring()
        &&& new.has_chr_ram() == self.has_chr_ram()
        &&& new.has_nt_ram() == self.has_nt_ram()
    }
}

} // verus!
