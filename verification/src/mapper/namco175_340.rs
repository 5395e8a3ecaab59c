//! Namco 175 and 340 (iNES 210): four 8 KiB PRG banks (the last fixed),
//! eight 1 KiB CHR banks; the 175 has write-protected 2 KiB PRG RAM, the
//! 340 mirroring control.
use vstd::prelude::*;

use crate::bits::lemma_u16;
use crate::bus::{AddressBus, AndAndMask, AndEqualsAndMask, BusKind, DeviceKind, MappingFn};
use crate::cartridge::INes;
use crate::mapper::{MapperInput, banked, banked_index, Mapper, Mirroring, Nametable, SaveWram, SimpleMirroring};
use crate::memory::{lemma_bank_sizes, Memory, MemoryBlock};
use crate::ppu::PpuFetchKind;

verus! {

#[derive(Debug, Copy, Clone, PartialEq, Eq, Structural)]
pub enum NamcoVariant {
    Unspecified,
    Namco175,
    Namco340,
}

impl NamcoVariant {
    pub open spec fn spec_has_2k_prg_ram(self) -> bool {
        self is Namco175
    }

    pub open spec fn spec_has_mirroring_ctrl(self) -> bool {
        !(self is Namco175)
    }

    fn has_2k_prg_ram(&self) -> (r: bool)
        ensures
            r == self.spec_has_2k_prg_ram(),
    {
        match self {
            NamcoVariant::Unspecified => false,
            NamcoVariant::Namco175 => true,
            NamcoVariant::Namco340 => false,
        }
    }

    fn has_mirroring_ctrl(&self) -> (r: bool)
        ensures
            r == self.spec_has_mirroring_ctrl(),
    {
        match self {
            NamcoVariant::Unspecified => true,
            NamcoVariant::Namco175 => false,
            NamcoVariant::Namco340 => true,
        }
    }
}

/// The mirroring the top two bits of a $E000 write select.
pub open spec fn namco_mirroring(value: u8) -> Mirroring {
    let m = value / 64;
    if m == 0 {
        Mirroring::Single(Nametable::InternalA)
    } else if m == 1 {
        Mirroring::Vertical
    } else if m == 2 {
        Mirroring::Single(Nametable::InternalB)
    } else {
        Mirroring::Horizontal
    }
}

pub struct Namco175_340 {
    cartridge: INes,
    variant: NamcoVariant,
    prg_ram: Option<MemoryBlock>,
    chr_bank_regs: [u8; 8],
    prg_bank_regs: [u8; 4],
    write_protect: bool,
    mirroring: SimpleMirroring,
}

impl Namco175_340 {
    pub closed spec fn prg_ram_now(&self) -> Option<MemoryBlock> {
        self.prg_ram
    }

    pub closed spec fn prg(&self) -> Seq<u8> {
        self.cartridge.prg_rom@
    }

    pub closed spec fn chr(&self) -> Seq<u8> {
        self.cartridge.chr_rom@
    }

    pub closed spec fn ram(&self) -> Option<Seq<u8>> {
        match self.prg_ram {
            Some(r) => Some(r@),
            None => None,
        }
    }

    pub closed spec fn variant(&self) -> NamcoVariant {
        self.variant
    }

    pub closed spec fn chr_regs(&self) -> Seq<u8> {
        self.chr_bank_regs@
    }

    pub closed spec fn prg_regs(&self) -> Seq<u8> {
        self.prg_bank_regs@
    }

    pub closed spec fn write_protect(&self) -> bool {
        self.write_protect
    }

    pub closed spec fn mirroring(&self) -> Mirroring {
        self.mirroring.mirroring
    }

    pub closed spec fn battery(&self) -> bool {
        self.cartridge.battery
    }

    /// The board as it comes up at power-on from this image.
    pub open spec fn powered_on(&self, cartridge: INes, variant: NamcoVariant) -> bool {
        &&& self.prg() == cartridge.prg_rom@
        &&& self.chr() == cartridge.chr_rom@
        &&& self.variant() == variant
        &&& self.chr_regs() == Seq::new(8, |i: int| 0u8)
        &&& self.prg_regs() == seq![0u8, 0, 0, ((cartridge.prg_rom@.len() / 0x2000) - 1) as u8]
        &&& self.write_protect()
        &&& self.mirroring() == cartridge.mirroring.spec_into()
        &&& self.battery() == cartridge.battery
        &&& (cartridge.prg_ram_bytes > 0) == (self.ram() is Some)
        &&& self.ram() matches Some(ram) ==> {
                let n: int = if variant.spec_has_2k_prg_ram() { 2048int } else { 8192int };
                &&& ram.len() == n
                &&& forall|i: int|
                    0 <= i < n ==> #[trigger] ram[i] == match cartridge.wram {
                        Some(w) => if i < w@.len() { w@[i] } else { 0u8 },
                        None => 0u8,
                    }
            }
        &&& cartridge.chr_rom@.len() > 0 ==> self.wf()
    }

    /// PRG RAM (2 KiB on the 175, else 8 KiB) when the header asks for it,
    /// loaded from the save; the last register holds the last PRG bank and
    /// the RAM starts write-protected.
    pub fn new(cartridge: INes, variant: NamcoVariant) -> (r: Self)
        requires
            cartridge.prg_rom@.len() >= 0x2000,
        ensures
            r.powered_on(cartridge, variant),
            r.prg() == cartridge.prg_rom@,
            r.chr() == cartridge.chr_rom@,
            r.variant() == variant,
            r.chr_regs() == Seq::new(8, |i: int| 0u8),
            r.prg_regs() == seq![0u8, 0, 0, ((cartridge.prg_rom@.len() / 0x2000) - 1) as u8],
            r.write_protect(),
            r.mirroring() == cartridge.mirroring.spec_into(),
            r.battery() == cartridge.battery,
            (cartridge.prg_ram_bytes > 0) == (r.ram() is Some),
            r.ram() matches Some(ram) ==> {
                let n: int = if variant.spec_has_2k_prg_ram() { 2048int } else { 8192int };
                &&& ram.len() == n
                &&& forall|i: int|
                    0 <= i < n ==> #[trigger] ram[i] == match cartridge.wram {
                        Some(w) => if i < w@.len() { w@[i] } else { 0u8 },
                        None => 0u8,
                    }
            },
            cartridge.chr_rom@.len() > 0 ==> r.wf(),
    {
        let mut cartridge = cartridge;
        let prg_ram = if cartridge.prg_ram_bytes > 0 {
            let kb: usize = if variant.has_2k_prg_ram() {
                2
            } else {
                8
            };
            let mut ram = MemoryBlock::new(kb);
            if let Some(wram) = cartridge.wram.take() {
                ram.restore_wram(wram);
            }
            Some(ram)
        } else {
            None
        };
        let fixed_bank = ((cartridge.prg_rom.len() / 0x2000) - 1) as u8;
        let r = Self {
            variant,
            prg_ram,
            chr_bank_regs: [0; 8],
            prg_bank_regs: [0, 0, 0, fixed_bank],
            write_protect: true,
            mirroring: SimpleMirroring::new(cartridge.mirroring.into()),
            cartridge,
        };
        assert(r.chr_bank_regs@ =~= Seq::new(8, |i: int| 0u8));
        assert(r.prg_bank_regs@ =~= seq![0u8, 0, 0, fixed_bank]);
        r
    }

    fn read_cpu(&self, addr: u16) -> (r: u8)
        requires
            self.wf(),
        ensures
            r == self.spec_peek(BusKind::Cpu, addr),
    {
        proof {
            lemma_bank_sizes();
            lemma_u16(addr);
        }
        if 0x6000 <= addr && addr <= 0x7fff {
            match &self.prg_ram {
                Some(ram) => {
                    if self.variant.has_2k_prg_ram() {
                        if self.write_protect {
                            0
                        } else {
                            ram.read_mapped(0, 2 * 1024, addr)
                        }
                    } else {
                        ram.read_mapped(0, 8 * 1024, addr)
                    }
                },
                None => 0,
            }
        } else if addr >= 0x8000 {
            let bank_idx = ((addr >> 13) & 3) as usize;
            let bank = self.prg_bank_regs[bank_idx] as usize;
            self.cartridge.prg_rom.read_mapped(bank, 8 * 1024, addr)
        } else {
            0
        }
    }

    fn write_cpu(&mut self, addr: u16, value: u8)
        requires
            old(self).wf(),
        ensures
            final(self).wf(),
            final(self).written_from(&*old(self), addr, value),
    {
        proof {
            lemma_bank_sizes();
        }
        if 0x8000 <= addr && addr <= 0xbfff {
            let reg = (addr - 0x8000) / 0x800;
            self.chr_bank_regs[reg as usize] = value;
        } else if 0xc000 <= addr && addr <= 0xc7ff && self.variant.has_2k_prg_ram() {
            self.write_protect = value & 1 == 0;
        } else if 0xe000 <= addr && addr <= 0xe7ff {
            self.prg_bank_regs[0] = value & 0x3f;
            if self.variant.has_mirroring_ctrl() {
                let m = value >> 6;
                proof {
                    crate::bits::lemma_u8(value);
                }
                if m == 0 {
                    self.mirroring.internal_a();
                } else if m == 1 {
                    self.mirroring.vertical();
                } else if m == 2 {
                    self.mirroring.internal_b();
                } else {
                    self.mirroring.horizontal();
                }
            }
        } else if 0xe800 <= addr && addr <= 0xefff {
            self.prg_bank_regs[1] = value & 0x3f;
        } else if 0xf000 <= addr && addr <= 0xf7ff {
            self.prg_bank_regs[2] = value & 0x3f;
        } else if 0x6000 <= addr && addr <= 0x7fff {
            let two_k = self.variant.has_2k_prg_ram();
            let protect = self.write_protect;
            if let Some(ram) = &mut self.prg_ram {
                if two_k {
                    if !protect {
                        ram.write_mapped(0, 2 * 1024, addr, value);
                    }
                } else {
                    ram.write_mapped(0, 8 * 1024, addr, value);
                }
            }
        }
    }

    /// The board after a CPU write of `value` to `addr`: $8000-$BFFF load
    /// the CHR registers (2 KiB apart), $C000-$C7FF the 175's RAM
    /// protection, $E000/$E800/$F000 the PRG registers (the first also the
    /// 340's mirroring), $6000-$7FFF the PRG RAM.
    pub closed spec fn written_from(&self, old: &Namco175_340, addr: u16, value: u8) -> bool {
        let expected = if 0x8000 <= addr <= 0xbfff {
            Namco175_340 {
                chr_bank_regs: self.chr_bank_regs,
                ..*old
            }
        } else if 0xc000 <= addr <= 0xc7ff && old.variant.spec_has_2k_prg_ram() {
            Namco175_340 { write_protect: value & 1 == 0, ..*old }
        } else if 0xe000 <= addr <= 0xe7ff {
            Namco175_340 {
                prg_bank_regs: self.prg_bank_regs,
                mirroring: if old.variant.spec_has_mirroring_ctrl() {
                    SimpleMirroring { mirroring: namco_mirroring(value) }
                } else {
                    old.mirroring
                },
                ..*old
            }
        } else if 0xe800 <= addr <= 0xf7ff {
            Namco175_340 { prg_bank_regs: self.prg_bank_regs, ..*old }
        } else if 0x6000 <= addr <= 0x7fff {
            Namco175_340 { prg_ram: self.prg_ram, ..*old }
        } else {
            *old
        };
        &&& *self == expected
        &&& 0x8000 <= addr <= 0xbfff ==> self.chr_bank_regs@ == old.chr_bank_regs@.update(
            (addr - 0x8000) / 0x800,
            value,
        )
        &&& 0xe000 <= addr <= 0xe7ff ==> self.prg_bank_regs@ == old.prg_bank_regs@.update(
            0,
            value & 0x3f,
        )
        &&& 0xe800 <= addr <= 0xefff ==> self.prg_bank_regs@ == old.prg_bank_regs@.update(
            1,
            value & 0x3f,
        )
        &&& 0xf000 <= addr <= 0xf7ff ==> self.prg_bank_regs@ == old.prg_bank_regs@.update(
            2,
            value & 0x3f,
        )
        &&& 0x6000 <= addr <= 0x7fff ==> self.ram() == match old.prg_ram {
            Some(r) => if old.variant.spec_has_2k_prg_ram() {
                if old.write_protect {
                    Some(r@)
                } else {
                    Some(r@.update(banked_index(r@, 0, 0x800, addr), value))
                }
            } else {
                Some(r@.update(banked_index(r@, 0, 0x2000, addr), value))
            },
            None => None,
        }
    }
}

impl Mapper for Namco175_340 {
    closed spec fn wf(&self) -> bool {
        &&& self.prg().len() > 0
        &&& self.chr().len() > 0
        &&& match self.prg_ram {
            Some(r) => r@.len() > 0,
            None => true,
        }
    }

    open spec fn readable(&self, bus: BusKind, addr: u16) -> bool {
        bus is Ppu ==> ((addr as int) / 0x400) % 16 < 8
    }

    open spec fn writable(&self, bus: BusKind, addr: u16) -> bool {
        true
    }

    closed spec fn accepts(&self, input: MapperInput) -> bool {
        true
    }

    open spec fn fetchable(&self, address: u16) -> bool {
        true
    }

    open spec fn spec_peek(&self, bus: BusKind, addr: u16) -> u8 {
        match bus {
            BusKind::Cpu => if 0x6000 <= addr <= 0x7fff {
                match self.prg_ram_now() {
                    Some(r) => if self.variant().spec_has_2k_prg_ram() {
                        if self.write_protect() {
                            0
                        } else {
                            banked(r@, 0, 0x800, addr)
                        }
                    } else {
                        banked(r@, 0, 0x2000, addr)
                    },
                    None => 0,
                }
            } else if addr >= 0x8000 {
                banked(
                    self.prg(),
                    self.prg_regs()[((addr as int) / 0x2000) % 4] as usize,
                    0x2000,
                    addr,
                )
            } else {
                0
            },
            BusKind::Ppu => banked(
                self.chr(),
                self.chr_regs()[((addr as int) / 0x400) % 16] as usize,
                0x400,
                addr,
            ),
        }
    }

    closed spec fn spec_nametable(&self, address: u16) -> Nametable {
        self.mirroring.mirroring.spec_ppu_fetch(address)
    }

    fn register(&self, cpu: &mut AddressBus)
        ensures
            final(cpu).reads() == old(cpu).reads().push(
                (MappingFn::AndEqualsAndMask(AndEqualsAndMask(0xe000, 0x6000, 0x7fff)), DeviceKind::Mapper),
            ).push((MappingFn::AndAndMask(AndAndMask(0x8000, 0xffff)), DeviceKind::Mapper)),
            final(cpu).writes() == old(cpu).writes().push(
                (MappingFn::AndEqualsAndMask(AndEqualsAndMask(0xe000, 0x6000, 0x7fff)), DeviceKind::Mapper),
            ).push((MappingFn::AndAndMask(AndAndMask(0x8000, 0xffff)), DeviceKind::Mapper)),
    {
        cpu.register_read(DeviceKind::Mapper, AndEqualsAndMask(0xe000, 0x6000, 0x7fff).into());
        cpu.register_write(DeviceKind::Mapper, AndEqualsAndMask(0xe000, 0x6000, 0x7fff).into());
        cpu.register_read(DeviceKind::Mapper, AndAndMask(0x8000, 0xffff).into());
        cpu.register_write(DeviceKind::Mapper, AndAndMask(0x8000, 0xffff).into());
    }

    fn peek(&self, bus: BusKind, addr: u16) -> (r: u8) {
        match bus {
            BusKind::Cpu => self.read_cpu(addr),
            BusKind::Ppu => {
                proof {
                    lemma_bank_sizes();
                    lemma_u16(addr);
                }
                let bank_idx = ((addr >> 10) & 0xf) as usize;
                let bank = self.chr_bank_regs[bank_idx] as usize;
                self.cartridge.chr_rom.read_mapped(bank, 1024, addr)
            },
        }
    }

    fn write(&mut self, bus: BusKind, addr: u16, value: u8)
        ensures
            old(self).wrote(&*final(self), bus, addr, value),
            bus is Ppu ==> *final(self) == *old(self),
            bus is Cpu ==> final(self).written_from(&*old(self), addr, value),
            final(self).variant() == old(self).variant(),
    {
        match bus {
            BusKind::Cpu => self.write_cpu(addr, value),
            BusKind::Ppu => (),
        }
    }

    fn peek_ppu_fetch(&self, address: u16, _kind: PpuFetchKind) -> (r: Nametable) {
        self.mirroring.ppu_fetch(address)
    }

    /// Battery-backed boards with PRG RAM save it.
    fn save_wram(&self) -> (r: Option<SaveWram>)
        ensures
            self.wram_is(r),
            (self.battery() && self.ram() is Some) ==> (r matches Some(w) && w@ == self.ram().unwrap()),
            !(self.battery() && self.ram() is Some) ==> r is None,
    {
        if self.cartridge.battery {
            match &self.prg_ram {
                Some(r) => r.save_wram(),
                None => None,
            }
        } else {
            None
        }
    }
}

impl Namco175_340 {
    /// What a write does to the board.
    pub open spec fn wrote(&self, new: &Namco175_340, bus: BusKind, addr: u16, value: u8) -> bool {
        &&& bus is Ppu ==> *new == *self
        &&& bus is Cpu ==> new.written_from(self, addr, value)
        &&& new.variant() == self.variant()
    }

    /// The battery-backed RAM the board hands out.
    pub open spec fn wram_is(&self, r: Option<SaveWram>) -> bool {
        &&& (self.battery() && self.ram() is Some) ==> (r matches Some(w) && w@ == self.ram().unwrap())
        &&& !(self.battery() && self.ram() is Some) ==> r is None
    }
}

} // verus!
