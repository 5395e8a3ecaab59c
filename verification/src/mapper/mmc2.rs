//! MMC2 (PxROM) and MMC4 (FxROM): switchable PRG, and CHR banks chosen by
//! latches that flip when the PPU fetches particular tiles.
use vstd::prelude::*;

use crate::bus::{AddressBus, AndAndMask, AndEqualsAndMask, BusKind, DeviceKind, MappingFn};
use crate::cartridge::INes;
use crate::mapper::{MapperInput, banked, Mapper, Mirroring, Nametable, SaveWram, SimpleMirroring};
use crate::memory::{lemma_bank_sizes, FixedMemoryBlock, Memory};
use crate::ppu::PpuFetchKind;

verus! {

#[derive(Debug, Copy, Clone, PartialEq, Eq, Structural)]
pub enum Mmc2Variant {
    Mmc2,
    Mmc4,
}

impl Mmc2Variant {
    fn is_mmc4(&self) -> (r: bool)
        ensures
            r == (*self is Mmc4),
    {
        match self {
            Mmc2Variant::Mmc4 => true,
            Mmc2Variant::Mmc2 => false,
        }
    }
}

pub struct Mmc2 {
    cartridge: INes,
    variant: Mmc2Variant,
    prg_bank_count: usize,
    prg_ram: Option<FixedMemoryBlock<8>>,
    prg_bank: u8,
    chr_banks: [u8; 4],
    chr_latches: [u8; 2],
    mirroring: SimpleMirroring,
}

/// PRG bank and bank size in bytes for a CPU address at or above $8000.
/// MMC2 switches an 8 KiB bank at $8000 and fixes the last three; MMC4
/// switches 16 KiB at $8000 and fixes the last 16 KiB.
pub open spec fn mmc2_prg_map(variant: Mmc2Variant, prg_bank: u8, count: usize, addr: u16) -> (
    usize,
    usize,
) {
    match variant {
        Mmc2Variant::Mmc4 => if addr & 0x4000 == 0 {
            (prg_bank as usize, 0x4000)
        } else {
            ((count / 2 - 1) as usize, 0x4000)
        },
        Mmc2Variant::Mmc2 => {
            let region = addr & 0xe000;
            if region == 0x8000 {
                (prg_bank as usize, 0x2000)
            } else if region == 0xa000 {
                ((count - 3) as usize, 0x2000)
            } else if region == 0xc000 {
                ((count - 2) as usize, 0x2000)
            } else {
                ((count - 1) as usize, 0x2000)
            }
        },
    }
}

/// Which of the four CHR bank registers serves a pattern-table address:
/// the latch of the addressed half picks its $FD or $FE register.
pub open spec fn mmc2_chr_reg(latches: Seq<u8>, addr: u16) -> int {
    let half: int = if addr & 0x1000 == 0 { 0 } else { 1 };
    half * 2 + if latches[half] == 0xfd { 0int } else { 1int }
}

/// The latches after the PPU reads `addr`: tile $FD or $FE at the end of
/// each pattern table sets the latch of that half. MMC2 watches only the
/// first byte of the tile in the lower half, MMC4 all eight.
pub open spec fn mmc2_latches_after(variant: Mmc2Variant, latches: Seq<u8>, addr: u16) -> Seq<u8> {
    if addr == 0x0fd8 || (variant is Mmc4 && 0x0fd8 <= addr <= 0x0fdf) {
        latches.update(0, 0xfd)
    } else if addr == 0x0fe8 || (variant is Mmc4 && 0x0fe8 <= addr <= 0x0fef) {
        latches.update(0, 0xfe)
    } else if 0x1fd8 <= addr <= 0x1fdf {
        latches.update(1, 0xfd)
    } else if 0x1fe8 <= addr <= 0x1fef {
        latches.update(1, 0xfe)
    } else {
        latches
    }
}

impl Mmc2 {
    pub closed spec fn prg_ram_now(&self) -> Option<FixedMemoryBlock<8>> {
        self.prg_ram
    }

    pub closed spec fn prg(&self) -> Seq<u8> {
        self.cartridge.prg_rom@
    }

    pub closed spec fn chr(&self) -> Seq<u8> {
        self.cartridge.chr_rom@
    }

    pub closed spec fn ram(&self) -> Option<Seq<u8>> {
        match self.prg_ram {
            Some(r) => Some(r@),
            None => None,
        }
    }

    pub closed spec fn variant(&self) -> Mmc2Variant {
        self.variant
    }

    pub closed spec fn prg_bank(&self) -> u8 {
        self.prg_bank
    }

    pub closed spec fn prg_bank_count(&self) -> usize {
        self.prg_bank_count
    }

    pub closed spec fn chr_banks(&self) -> Seq<u8> {
        self.chr_banks@
    }

    pub closed spec fn latches(&self) -> Seq<u8> {
        self.chr_latches@
    }

    pub closed spec fn mirroring(&self) -> Mirroring {
        self.mirroring.mirroring
    }

    pub closed spec fn battery(&self) -> bool {
        self.cartridge.battery
    }

    /// Everything but the CHR latches agrees.
    pub closed spec fn same_but_latches(&self, other: &Mmc2) -> bool {
        *self == (Mmc2 { chr_latches: self.chr_latches, ..*other })
    }

    /// The image has the fixed banks the variant maps and some CHR ROM.
    pub open spec fn usable(cartridge: &INes, variant: Mmc2Variant) -> bool {
        &&& cartridge.chr_rom@.len() > 0
        &&& match variant {
            Mmc2Variant::Mmc2 => cartridge.prg_rom@.len() / 0x2000 >= 3,
            Mmc2Variant::Mmc4 => cartridge.prg_rom@.len() / 0x2000 >= 2,
        }
    }

    /// The board as it comes up at power-on from this image.
    pub open spec fn powered_on(&self, cartridge: INes, variant: Mmc2Variant) -> bool {
        &&& self.prg() == cartridge.prg_rom@
        &&& self.chr() == cartridge.chr_rom@
        &&& self.variant() == variant
        &&& self.prg_bank_count() == cartridge.prg_rom@.len() / 0x2000
        &&& self.prg_bank() == 0
        &&& self.chr_banks() == seq![0u8, 0, 0, 0]
        &&& self.latches() == seq![0xfdu8, 0xfd]
        &&& self.mirroring() == cartridge.mirroring.spec_into()
        &&& self.battery() == cartridge.battery
        &&& (cartridge.prg_ram_bytes > 0) == (self.ram() is Some)
        &&& self.ram() matches Some(ram) ==> ram.len() == 8 * 1024 && forall|i: int|
                0 <= i < 8 * 1024 ==> #[trigger] ram[i] == match cartridge.wram {
                    Some(w) => if i < w@.len() { w@[i] } else { 0u8 },
                    None => 0u8,
                }
        &&& Self::usable(&cartridge, variant) ==> self.wf()
    }

    /// PRG RAM is present when the header asks for it, loaded from the
    /// save; both latches start on $FD.
    pub fn new(cartridge: INes, variant: Mmc2Variant) -> (r: Self)
        ensures
            r.powered_on(cartridge, variant),
            r.prg() == cartridge.prg_rom@,
            r.chr() == cartridge.chr_rom@,
            r.variant() == variant,
            r.prg_bank_count() == cartridge.prg_rom@.len() / 0x2000,
            r.prg_bank() == 0,
            r.chr_banks() == seq![0u8, 0, 0, 0],
            r.latches() == seq![0xfdu8, 0xfd],
            r.mirroring() == cartridge.mirroring.spec_into(),
            r.battery() == cartridge.battery,
            (cartridge.prg_ram_bytes > 0) == (r.ram() is Some),
            r.ram() matches Some(ram) ==> ram.len() == 8 * 1024 && forall|i: int|
                0 <= i < 8 * 1024 ==> #[trigger] ram[i] == match cartridge.wram {
                    Some(w) => if i < w@.len() { w@[i] } else { 0u8 },
                    None => 0u8,
                },
            Self::usable(&cartridge, variant) ==> r.wf(),
    {
        let mut cartridge = cartridge;
        let prg_ram = if cartridge.prg_ram_bytes > 0 {
            let mut ram = FixedMemoryBlock::<8>::new();
            if let Some(wram) = cartridge.wram.take() {
                ram.restore_wram(wram);
            }
            Some(ram)
        } else {
            None
        };
        let prg_bank_count = cartridge.prg_rom.len() / 0x2000;
        let r = Self {
            mirroring: SimpleMirroring::new(cartridge.mirroring.into()),
            variant,
            cartridge,
            prg_ram,
            prg_bank_count,
            prg_bank: 0,
            chr_banks: [0; 4],
            chr_latches: [0xfd; 2],
        };
        assert(r.chr_banks@ =~= seq![0u8, 0, 0, 0]);
        assert(r.chr_latches@ =~= seq![0xfdu8, 0xfd]);
        r
    }

    fn map_prg(&self, addr: u16) -> (r: (usize, usize))
        requires
            self.wf(),
        ensures
            r == mmc2_prg_map(self.variant, self.prg_bank, self.prg_bank_count, addr),
    {
        if self.variant.is_mmc4() {
            if addr & 0x4000 == 0 {
                (self.prg_bank as usize, 16 * 1024)
            } else {
                ((self.prg_bank_count / 2) - 1, 16 * 1024)
            }
        } else {
            let region = addr & 0xe000;
            if region == 0x8000 {
                (self.prg_bank as usize, 8 * 1024)
            } else if region == 0xa000 {
                (self.prg_bank_count - 3, 8 * 1024)
            } else if region == 0xc000 {
                (self.prg_bank_count - 2, 8 * 1024)
            } else {
                (self.prg_bank_count - 1, 8 * 1024)
            }
        }
    }

    fn read_cpu(&self, addr: u16) -> (r: u8)
        requires
            self.wf(),
        ensures
            r == self.spec_peek(BusKind::Cpu, addr),
    {
        proof {
            lemma_bank_sizes();
        }
        if addr & 0x8000 == 0 {
            match &self.prg_ram {
                Some(ram) => ram.read(addr),
                None => 0,
            }
        } else {
            let (bank, size) = self.map_prg(addr);
            self.cartridge.prg_rom.read_mapped(bank, size, addr)
        }
    }

    fn peek_ppu(&self, addr: u16) -> (r: u8)
        requires
            self.wf(),
        ensures
            r == self.spec_peek(BusKind::Ppu, addr),
    {
        proof {
            lemma_bank_sizes();
        }
        let latch_idx: usize = if addr & 0x1000 == 0 {
            0
        } else {
            1
        };
        let latch = self.chr_latches[latch_idx];
        let bank_idx: usize = if latch == 0xfd {
            latch_idx * 2
        } else {
            latch_idx * 2 + 1
        };
        let bank = self.chr_banks[bank_idx];
        self.cartridge.chr_rom.read_mapped(bank as usize, 4 * 1024, addr)
    }

    fn read_ppu(&mut self, addr: u16) -> (r: u8)
        requires
            old(self).wf(),
        ensures
            r == old(self).spec_peek(BusKind::Ppu, addr),
            final(self).latches() == mmc2_latches_after(
                old(self).variant(),
                old(self).latches(),
                addr,
            ),
            final(self).same_but_latches(&*old(self)),
            final(self).variant() == old(self).variant(),
            final(self).wf(),
    {
        let val = self.peek_ppu(addr);
        let mmc4 = self.variant.is_mmc4();
        if addr == 0x0fd8 || (mmc4 && 0x0fd8 <= addr && addr <= 0x0fdf) {
            self.chr_latches[0] = 0xfd;
        } else if addr == 0x0fe8 || (mmc4 && 0x0fe8 <= addr && addr <= 0x0fef) {
            self.chr_latches[0] = 0xfe;
        } else if 0x1fd8 <= addr && addr <= 0x1fdf {
            self.chr_latches[1] = 0xfd;
        } else if 0x1fe8 <= addr && addr <= 0x1fef {
            self.chr_latches[1] = 0xfe;
        }
        val
    }

    fn write_cpu(&mut self, addr: u16, value: u8)
        requires
            old(self).wf(),
        ensures
            final(self).wf(),
            final(self).prg_bank() == if addr == 0xa000 {
                value & 0xf
            } else {
                old(self).prg_bank()
            },
            final(self).chr_banks() == if addr == 0xb000 {
                old(self).chr_banks().update(0, value & 0x1f)
            } else if addr == 0xc000 {
                old(self).chr_banks().update(1, value & 0x1f)
            } else if addr == 0xd000 {
                old(self).chr_banks().update(2, value & 0x1f)
            } else if addr == 0xe000 {
                old(self).chr_banks().update(3, value & 0x1f)
            } else {
                old(self).chr_banks()
            },
            final(self).mirroring() == if addr == 0xf000 {
                if value & 1 == 0 {
                    Mirroring::Vertical
                } else {
                    Mirroring::Horizontal
                }
            } else {
                old(self).mirroring()
            },
            final(self).ram() == match old(self).ram() {
                Some(ram) => if 0x6000 <= addr <= 0x7fff {
                    Some(ram.update((addr as int) % 0x2000, value))
                } else {
                    Some(ram)
                },
                None => None,
            },
            final(self).prg() == old(self).prg(),
            final(self).chr() == old(self).chr(),
            final(self).latches() == old(self).latches(),
            final(self).variant() == old(self).variant(),
            final(self).prg_bank_count() == old(self).prg_bank_count(),
            final(self).battery() == old(self).battery(),
    {
        if addr == 0xa000 {
            self.prg_bank = value & 0xf;
        } else if addr == 0xb000 {
            self.chr_banks[0] = value & 0x1f;
        } else if addr == 0xc000 {
            self.chr_banks[1] = value & 0x1f;
        } else if addr == 0xd000 {
            self.chr_banks[2] = value & 0x1f;
        } else if addr == 0xe000 {
            self.chr_banks[3] = value & 0x1f;
        } else if addr == 0xf000 {
            if value & 1 == 0 {
                self.mirroring.vertical();
            } else {
                self.mirroring.horizontal();
            }
        } else if 0x6000 <= addr && addr <= 0x7fff {
            if let Some(ram) = &mut self.prg_ram {
                ram.write(addr, value);
            }
        }
    }
}

impl Mapper for Mmc2 {
    closed spec fn wf(&self) -> bool {
        &&& self.prg().len() > 0
        &&& self.chr().len() > 0
        &&& self.prg_bank_count == self.prg().len() / 0x2000
        &&& match self.variant {
            Mmc2Variant::Mmc2 => self.prg_bank_count >= 3,
            Mmc2Variant::Mmc4 => self.prg_bank_count >= 2,
        }
        &&& match self.prg_ram {
            Some(r) => r.wf(),
            None => true,
        }
    }

    open spec fn readable(&self, bus: BusKind, addr: u16) -> bool {
        true
    }

    open spec fn writable(&self, bus: BusKind, addr: u16) -> bool {
        true
    }

    closed spec fn accepts(&self, input: MapperInput) -> bool {
        true
    }

    open spec fn fetchable(&self, address: u16) -> bool {
        true
    }

    open spec fn spec_peek(&self, bus: BusKind, addr: u16) -> u8 {
        match bus {
            BusKind::Cpu => if addr & 0x8000 == 0 {
                match self.prg_ram_now() {
                    Some(r) => r@[(addr as int) % 0x2000],
                    None => 0,
                }
            } else {
                let (bank, size) = mmc2_prg_map(self.variant(), self.prg_bank(), self.prg_bank_count(), addr);
                banked(self.prg(), bank, size, addr)
            },
            BusKind::Ppu => banked(
                self.chr(),
                self.chr_banks()[mmc2_chr_reg(self.latches(), addr)] as usize,
                0x1000,
                addr,
            ),
        }
    }

    closed spec fn spec_nametable(&self, address: u16) -> Nametable {
        self.mirroring.mirroring.spec_ppu_fetch(address)
    }

    fn register(&self, cpu: &mut AddressBus)
        ensures
            final(cpu).reads() == if self.ram() is Some {
                old(cpu).reads().push(
                    (MappingFn::AndAndMask(AndAndMask(0x8000, 0xffff)), DeviceKind::Mapper),
                ).push(
                    (
                        MappingFn::AndEqualsAndMask(AndEqualsAndMask(0xe000, 0x6000, 0x7fff)),
                        DeviceKind::Mapper,
                    ),
                )
            } else {
                old(cpu).reads().push(
                    (MappingFn::AndAndMask(AndAndMask(0x8000, 0xffff)), DeviceKind::Mapper),
                )
            },
            final(cpu).writes() == if self.ram() is Some {
                old(cpu).writes().push(
                    (MappingFn::AndAndMask(AndAndMask(0x8000, 0xf000)), DeviceKind::Mapper),
                ).push(
                    (
                        MappingFn::AndEqualsAndMask(AndEqualsAndMask(0xe000, 0x6000, 0x7fff)),
                        DeviceKind::Mapper,
                    ),
                )
            } else {
                old(cpu).writes().push(
                    (MappingFn::AndAndMask(AndAndMask(0x8000, 0xf000)), DeviceKind::Mapper),
                )
            },
    {
        cpu.register_read(DeviceKind::Mapper, AndAndMask(0x8000, 0xffff).into());
        cpu.register_write(DeviceKind::Mapper, AndAndMask(0x8000, 0xf000).into());
        if self.prg_ram.is_some() {
            cpu.register_read(DeviceKind::Mapper, AndEqualsAndMask(0xe000, 0x6000, 0x7fff).into());
            cpu.register_write(DeviceKind::Mapper, AndEqualsAndMask(0xe000, 0x6000, 0x7fff).into());
        }
    }

    fn peek(&self, bus: BusKind, addr: u16) -> (r: u8) {
        match bus {
            BusKind::Cpu => self.read_cpu(addr),
            BusKind::Ppu => self.peek_ppu(addr),
        }
    }

    /// A PPU read may flip a CHR latch; CPU reads change nothing.
    fn read(&mut self, bus: BusKind, addr: u16) -> (r: u8)
        ensures
            old(self).was_read(&*final(self), r, bus, addr),
            r == old(self).spec_peek(bus, addr),
            final(self).variant() == old(self).variant(),
            bus is Cpu ==> *final(self) == *old(self),
            bus is Ppu ==> final(self).latches() == mmc2_latches_after(
                old(self).variant(),
                old(self).latches(),
                addr,
            ) && final(self).same_but_latches(&*old(self)),
    {
        match bus {
            BusKind::Cpu => self.read_cpu(addr),
            BusKind::Ppu => self.read_ppu(addr),
        }
    }

    /// $A000 selects the PRG bank, $B000-$E000 the four CHR banks, $F000
    /// the mirroring; $6000-$7FFF is PRG RAM when present.
    fn write(&mut self, bus: BusKind, addr: u16, value: u8)
        ensures
            old(self).wrote(&*final(self), bus, addr, value),
            bus is Ppu ==> *final(self) == *old(self),
            bus is Cpu ==> {
                &&& final(self).prg_bank() == if addr == 0xa000 {
                    value & 0xf
                } else {
                    old(self).prg_bank()
                }
                &&& final(self).chr_banks() == if addr == 0xb000 {
                    old(self).chr_banks().update(0, value & 0x1f)
                } else if addr == 0xc000 {
                    old(self).chr_banks().update(1, value & 0x1f)
                } else if addr == 0xd000 {
                    old(self).chr_banks().update(2, value & 0x1f)
                } else if addr == 0xe000 {
                    old(self).chr_banks().update(3, value & 0x1f)
                } else {
                    old(self).chr_banks()
                }
                &&& final(self).mirroring() == if addr == 0xf000 {
                    if value & 1 == 0 {
                        Mirroring::Vertical
                    } else {
                        Mirroring::Horizontal
                    }
                } else {
                    old(self).mirroring()
                }
                &&& final(self).ram() == match old(self).ram() {
                    Some(ram) => if 0x6000 <= addr <= 0x7fff {
                        Some(ram.update((addr as int) % 0x2000, value))
                    } else {
                        Some(ram)
                    },
                    None => None,
                }
                &&& final(self).prg() == old(self).prg()
                &&& final(self).chr() == old(self).chr()
                &&& final(self).latches() == old(self).latches()
                &&& final(self).variant() == old(self).variant()
                &&& final(self).battery() == old(self).battery()
            },
    {
        match bus {
            BusKind::Cpu => self.write_cpu(addr, value),
            BusKind::Ppu => (),
        }
    }

    fn peek_ppu_fetch(&self, address: u16, _kind: PpuFetchKind) -> (r: Nametable) {
        self.mirroring.ppu_fetch(address)
    }

    /// Battery-backed boards with PRG RAM save it.
    fn save_wram(&self) -> (r: Option<SaveWram>)
        ensures
            self.wram_is(r),
            (self.battery() && self.ram() is Some) ==> (r matches Some(w) && w@ == self.ram().unwrap()),
            !(self.battery() && self.ram() is Some) ==> r is None,
    {
        if self.cartridge.battery {
            match &self.prg_ram {
                Some(r) => r.save_wram(),
                None => None,
            }
        } else {
            None
        }
    }
}

impl Mmc2 {
    /// What a write does to the board.
    pub open spec fn wrote(&self, new: &Mmc2, bus: BusKind, addr: u16, value: u8) -> bool {
        &&& bus is Ppu ==> *new == *self
        &&& bus is Cpu ==> {
                    &&& new.prg_bank() == if addr == 0xa000 {
                        value & 0xf
                    } else {
                        self.prg_bank()
                    }
                    &&& new.chr_banks() == if addr == 0xb000 {
                        self.chr_banks().update(0, value & 0x1f)
                    } else if addr == 0xc000 {
                        self.chr_banks().update(1, value & 0x1f)
                    } else if addr == 0xd000 {
                        self.chr_banks().update(2, value & 0x1f)
                    } else if addr == 0xe000 {
                        self.chr_banks().update(3, value & 0x1f)
                    } else {
                        self.chr_banks()
                    }
                    &&& new.mirroring() == if addr == 0xf000 {
                        if value & 1 == 0 {
                            Mirroring::Vertical
                        } else {
                            Mirroring::Horizontal
                        }
                    } else {
                        self.mirroring()
                    }
                    &&& new.ram() == match self.ram() {
                        Some(ram) => if 0x6000 <= addr <= 0x7fff {
                            Some(ram.update((addr as int) % 0x2000, value))
                        } else {
                            Some(ram)
                        },
                        None => None,
                    }
                    &&& new.prg() == self.prg()
                    &&& new.chr() == self.chr()
                    &&& new.latches() == self.latches()
                    &&& new.variant() == self.variant()
                    &&& new.battery() == self.battery()
                }
    }

    /// What a read returns and does to the board.
    pub open spec fn was_read(&self, new: &Mmc2, r: u8, bus: BusKind, addr: u16) -> bool {
        &&& r == self.spec_peek(bus, addr)
        &&& new.variant() == self.variant()
        &&& bus is Cpu ==> *new == *self
        &&& bus is Ppu ==> new.latches() == mmc2_latches_after(
                    self.variant(),
                    self.latches(),
                    addr,
                ) && new.same_but_latches(self)
    }

    /// The battery-backed RAM the board hands out.
    pub open spec fn wram_is(&self, r: Option<SaveWram>) -> bool {
        &&& (self.battery() && self.ram() is Some) ==> (r matches Some(w) && w@ == self.ram().unwrap())
        &&& !(self.battery() && self.ram() is Some) ==> r is None
    }
}

} // verus!
