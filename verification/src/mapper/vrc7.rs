//! Konami VRC7 (iNES 85): three switchable 8 KiB PRG banks, eight 1 KiB CHR
//! banks, 8 KiB of PRG RAM, the VRC IRQ counter and the FM sound chip. The
//! two board revisions wire different address lines to the register
//! select.
use vstd::prelude::*;

use crate::bus::{AddressBus, AndAndMask, AndEqualsAndMask, BusKind, DeviceKind, MappingFn};
use crate::cartridge::INes;
use crate::mapper::vrc7_sound::{sound_ticked, sound_written};
use crate::mapper::vrc_irq::VrcIrq;
use crate::mapper::{banked, Mapper, MapperInput, Mirroring, Nametable, SaveWram, SimpleMirroring};
use crate::memory::{lemma_bank_sizes, FixedMemoryBlock, Memory};
use crate::ppu::PpuFetchKind;

pub use crate::mapper::vrc7_sound::Sound;

verus! {

#[derive(Debug, Copy, Clone, PartialEq, Eq, Structural)]
pub enum Vrc7Variant {
    Undefined,
    Vrc7a,
    Vrc7b,
}

/// The register address the chip sees: A3 and A4 of the CPU address are
/// moved to the select lines each revision uses (an unknown board takes
/// the VRC7b's when A3 is set).
pub open spec fn vrc7_decode(variant: Vrc7Variant, addr: u16) -> u16 {
    if addr < 0x8000 {
        addr
    } else {
        let a3 = addr & 0x0008;
        let a4 = addr & 0x0010;
        let base = addr & 0xffe7;
        match variant {
            Vrc7Variant::Undefined => if a3 != 0 {
                base | (a3 << 1u16) | (a4 >> 1u16)
            } else {
                base | a3 | a4
            },
            Vrc7Variant::Vrc7a => base | a3 | a4,
            Vrc7Variant::Vrc7b => base | (a3 << 1u16) | (a4 >> 1u16),
        }
    }
}

/// The CHR register a decoded address loads, if any.
pub open spec fn vrc7_chr_slot(d: u16) -> Option<int> {
    if d == 0xa000 {
        Some(0)
    } else if d == 0xa010 {
        Some(1)
    } else if d == 0xb000 {
        Some(2)
    } else if d == 0xb010 {
        Some(3)
    } else if d == 0xc000 {
        Some(4)
    } else if d == 0xc010 {
        Some(5)
    } else if d == 0xd000 {
        Some(6)
    } else if d == 0xd010 {
        Some(7)
    } else {
        None
    }
}

/// The mirroring a $E000 write selects.
pub open spec fn vrc7_mirroring(value: u8) -> Mirroring {
    let m = value % 4;
    if m == 0 {
        Mirroring::Vertical
    } else if m == 1 {
        Mirroring::Horizontal
    } else if m == 2 {
        Mirroring::Single(Nametable::InternalB)
    } else {
        Mirroring::Single(Nametable::InternalA)
    }
}

impl Vrc7Variant {
    fn register_decode(&self, addr: u16) -> (r: u16)
        ensures
            r == vrc7_decode(*self, addr),
    {
        if addr < 0x8000 {
            return addr;
        }
        let a3 = addr & 0x0008;
        let a4 = addr & 0x0010;
        let base = addr & 0xffe7;
        match self {
            Vrc7Variant::Undefined => {
                if a3 != 0 {
                    base | (a3 << 1) | (a4 >> 1)
                } else {
                    base | a3 | a4
                }
            },
            Vrc7Variant::Vrc7a => base | a3 | a4,
            Vrc7Variant::Vrc7b => base | (a3 << 1) | (a4 >> 1),
        }
    }
}

fn chr_slot(d: u16) -> (r: Option<usize>)
    ensures
        r matches Some(i) ==> vrc7_chr_slot(d) == Some(i as int),
        r is None ==> vrc7_chr_slot(d) is None,
{
    if d == 0xa000 {
        Some(0)
    } else if d == 0xa010 {
        Some(1)
    } else if d == 0xb000 {
        Some(2)
    } else if d == 0xb010 {
        Some(3)
    } else if d == 0xc000 {
        Some(4)
    } else if d == 0xc010 {
        Some(5)
    } else if d == 0xd000 {
        Some(6)
    } else if d == 0xd010 {
        Some(7)
    } else {
        None
    }
}

pub struct Vrc7 {
    cartridge: INes,
    mirroring: SimpleMirroring,
    audio: Sound,
    variant: Vrc7Variant,
    irq: VrcIrq,
    prg_ram: FixedMemoryBlock<8>,
    chr_ram: Option<FixedMemoryBlock<8>>,
    ram_protect: bool,
    prg_bank_regs: [u8; 4],
    chr_bank_regs: [u8; 8],
}

impl Vrc7 {
    pub closed spec fn chr_ram_now(&self) -> Option<FixedMemoryBlock<8>> {
        self.chr_ram
    }

    pub closed spec fn prg(&self) -> Seq<u8> {
        self.cartridge.prg_rom@
    }

    pub closed spec fn chr(&self) -> Seq<u8> {
        self.cartridge.chr_rom@
    }

    pub closed spec fn ram(&self) -> Seq<u8> {
        self.prg_ram@
    }

    pub closed spec fn chr_ram(&self) -> Option<Seq<u8>> {
        match self.chr_ram {
            Some(r) => Some(r@),
            None => None,
        }
    }

    pub closed spec fn variant(&self) -> Vrc7Variant {
        self.variant
    }

    pub closed spec fn irq(&self) -> VrcIrq {
        self.irq
    }

    pub closed spec fn audio(&self) -> Sound {
        self.audio
    }

    pub closed spec fn prg_regs(&self) -> Seq<u8> {
        self.prg_bank_regs@
    }

    pub closed spec fn chr_regs(&self) -> Seq<u8> {
        self.chr_bank_regs@
    }

    pub closed spec fn ram_protect(&self) -> bool {
        self.ram_protect
    }

    pub closed spec fn mirroring(&self) -> Mirroring {
        self.mirroring.mirroring
    }

    pub closed spec fn battery(&self) -> bool {
        self.cartridge.battery
    }

    /// Everything but the registers, memories and units a CPU write may
    /// change agrees.
    pub closed spec fn same_frame(&self, other: &Vrc7) -> bool {
        *self == (Vrc7 {
            mirroring: self.mirroring,
            audio: self.audio,
            irq: self.irq,
            prg_ram: self.prg_ram,
            ram_protect: self.ram_protect,
            prg_bank_regs: self.prg_bank_regs,
            chr_bank_regs: self.chr_bank_regs,
            ..*other
        })
    }

    /// Everything but the CHR RAM agrees.
    pub closed spec fn same_but_chr_ram(&self, other: &Vrc7) -> bool {
        *self == (Vrc7 { chr_ram: self.chr_ram, ..*other })
    }

    /// Everything but the IRQ counter and the sound chip agrees.
    pub closed spec fn same_but_units(&self, other: &Vrc7) -> bool {
        *self == (Vrc7 { irq: self.irq, audio: self.audio, ..*other })
    }

    /// A CPU write of `value` to `addr`: decoded, it loads a PRG or CHR
    /// register, at $E000 sets the mirroring, the RAM protection and the
    /// sound chip's reset, at $9010 / $9030 goes to the sound chip, at
    /// $E010 / $F000 / $F010 to the IRQ latch, control and acknowledge;
    /// below $8000 it lands in unprotected PRG RAM.
    pub closed spec fn written_from(&self, old: &Vrc7, addr: u16, value: u8) -> bool {
        let d = vrc7_decode(old.variant, addr);
        &&& self.same_frame(old)
        &&& self.prg_ram@ == if 0x6000 <= d <= 0x7fff && !old.ram_protect {
            old.prg_ram@.update((d as int) % 0x2000, value)
        } else {
            old.prg_ram@
        }
        &&& self.prg_bank_regs@ == if d == 0x8000 {
            old.prg_bank_regs@.update(0, value)
        } else if d == 0x8010 {
            old.prg_bank_regs@.update(1, value)
        } else if d == 0x9000 {
            old.prg_bank_regs@.update(2, value)
        } else {
            old.prg_bank_regs@
        }
        &&& self.chr_bank_regs@ == match vrc7_chr_slot(d) {
            Some(i) => old.chr_bank_regs@.update(i, value),
            None => old.chr_bank_regs@,
        }
        &&& self.mirroring.mirroring == if d == 0xe000 {
            vrc7_mirroring(value)
        } else {
            old.mirroring.mirroring
        }
        &&& self.ram_protect == if d == 0xe000 { value < 0x80 } else { old.ram_protect }
        &&& if d == 0xe000 || d == 0x9010 || d == 0x9030 {
            sound_written(self.audio, old.audio, d, value)
        } else {
            self.audio == old.audio
        }
        &&& self.irq == if d == 0xe010 {
            VrcIrq { latch: value, ..old.irq }
        } else if d == 0xf000 {
            old.irq.controlled(value)
        } else if d == 0xf010 {
            VrcIrq { triggered: false, ..old.irq }
        } else {
            old.irq
        }
    }

    /// The board as it comes up at power-on from this image.
    pub open spec fn powered_on(&self, cartridge: INes, variant: Vrc7Variant) -> bool {
        &&& self.prg() == cartridge.prg_rom@
        &&& self.chr() == cartridge.chr_rom@
        &&& self.variant() == variant
        &&& self.irq() == VrcIrq::initial()
        &&& self.audio().wf() && self.audio().spec_silence()
        &&& self.prg_regs() == seq![0u8, 0, 0, ((cartridge.prg_rom@.len() / 0x2000) - 1) as u8]
        &&& self.chr_regs() == Seq::new(8, |i: int| 0u8)
        &&& !self.ram_protect()
        &&& self.mirroring() == cartridge.mirroring.spec_into()
        &&& self.battery() == cartridge.battery
        &&& (cartridge.chr_ram_bytes > 0) == (self.chr_ram() is Some)
        &&& self.chr_ram() matches Some(c) ==> c == Seq::new(8 * 1024, |i: int| 0u8)
        &&& self.ram().len() == 8 * 1024
        &&& forall|i: int|
                0 <= i < 8 * 1024 ==> #[trigger] self.ram()[i] == match cartridge.wram {
                    Some(w) => if i < w@.len() { w@[i] } else { 0u8 },
                    None => 0u8,
                }
        &&& (cartridge.chr_ram_bytes > 0 || cartridge.chr_rom@.len() > 0) ==> self.wf()
    }

    /// PRG RAM loaded from the save, CHR RAM when the header asks for it;
    /// the last PRG register holds the last bank, the RAM starts
    /// unprotected and the sound chip in reset.
    pub fn new(cartridge: INes, variant: Vrc7Variant) -> (r: Self)
        requires
            cartridge.prg_rom@.len() >= 0x2000,
        ensures
            r.powered_on(cartridge, variant),
            r.prg() == cartridge.prg_rom@,
            r.chr() == cartridge.chr_rom@,
            r.variant() == variant,
            r.irq() == VrcIrq::initial(),
            r.audio().wf() && r.audio().spec_silence(),
            r.prg_regs() == seq![0u8, 0, 0, ((cartridge.prg_rom@.len() / 0x2000) - 1) as u8],
            r.chr_regs() == Seq::new(8, |i: int| 0u8),
            !r.ram_protect(),
            r.mirroring() == cartridge.mirroring.spec_into(),
            r.battery() == cartridge.battery,
            (cartridge.chr_ram_bytes > 0) == (r.chr_ram() is Some),
            r.chr_ram() matches Some(c) ==> c == Seq::new(8 * 1024, |i: int| 0u8),
            r.ram().len() == 8 * 1024,
            forall|i: int|
                0 <= i < 8 * 1024 ==> #[trigger] r.ram()[i] == match cartridge.wram {
                    Some(w) => if i < w@.len() { w@[i] } else { 0u8 },
                    None => 0u8,
                },
            (cartridge.chr_ram_bytes > 0 || cartridge.chr_rom@.len() > 0) ==> r.wf(),
    {
        let mut cartridge = cartridge;
        let mut prg_ram = FixedMemoryBlock::<8>::new();
        if let Some(wram) = cartridge.wram.take() {
            prg_ram.restore_wram(wram);
        }
        let last_bank = ((cartridge.prg_rom.len() / 0x2000) - 1) as u8;
        let chr_ram = if cartridge.chr_ram_bytes > 0 {
            Some(FixedMemoryBlock::<8>::new())
        } else {
            None
        };
        let mirroring = SimpleMirroring::new(cartridge.mirroring.into());
        let r = Self {
            cartridge,
            mirroring,
            audio: Sound::new(),
            variant,
            irq: VrcIrq::new(),
            prg_ram,
            chr_ram,
            ram_protect: false,
            prg_bank_regs: [0, 0, 0, last_bank],
            chr_bank_regs: [0; 8],
        };
        assert(r.prg_bank_regs@ =~= seq![0u8, 0, 0, last_bank]);
        assert(r.chr_bank_regs@ =~= Seq::new(8, |i: int| 0u8));
        r
    }

    fn read_cpu(&self, addr: u16) -> (r: u8)
        requires
            self.wf(),
        ensures
            r == self.spec_peek(BusKind::Cpu, addr),
    {
        proof {
            lemma_bank_sizes();
        }
        if addr >= 0x6000 && addr <= 0x7fff {
            self.prg_ram.read(addr)
        } else {
            let bank_idx = ((addr / 0x2000) % 4) as usize;
            let bank = self.prg_bank_regs[bank_idx] as usize;
            self.cartridge.prg_rom.read_mapped(bank, 8 * 1024, addr)
        }
    }

    fn write_cpu(&mut self, addr: u16, value: u8)
        requires
            old(self).wf(),
        ensures
            final(self).wf(),
            final(self).written_from(&*old(self), addr, value),
    {
        let d = self.variant.register_decode(addr);
        let slot = chr_slot(d);
        if 0x6000 <= d && d <= 0x7fff {
            if !self.ram_protect {
                self.prg_ram.write(d, value);
            }
        } else if d == 0x8000 {
            self.prg_bank_regs[0] = value;
        } else if d == 0x8010 {
            self.prg_bank_regs[1] = value;
        } else if d == 0x9000 {
            self.prg_bank_regs[2] = value;
        } else if let Some(i) = slot {
            self.chr_bank_regs[i] = value;
        } else if d == 0xe000 {
            let m = value % 4;
            if m == 0 {
                self.mirroring.vertical();
            } else if m == 1 {
                self.mirroring.horizontal();
            } else if m == 2 {
                self.mirroring.internal_b();
            } else {
                self.mirroring.internal_a();
            }
            self.ram_protect = value < 0x80;
            self.audio.write(d, value);
        } else if d == 0x9010 || d == 0x9030 {
            self.audio.write(d, value);
        } else if d == 0xe010 {
            self.irq.latch(value);
        } else if d == 0xf000 {
            self.irq.control(value);
        } else if d == 0xf010 {
            self.irq.acknowledge();
        }
    }

    fn read_ppu(&self, addr: u16) -> (r: u8)
        requires
            self.wf(),
        ensures
            r == self.spec_peek(BusKind::Ppu, addr),
    {
        proof {
            lemma_bank_sizes();
        }
        let bank_idx = ((addr / 0x400) % 8) as usize;
        let bank = self.chr_bank_regs[bank_idx] as usize;
        match &self.chr_ram {
            Some(ram) => ram.read_mapped(bank, 1024, addr),
            None => self.cartridge.chr_rom.read_mapped(bank, 1024, addr),
        }
    }

    fn write_ppu(&mut self, addr: u16, value: u8)
        requires
            old(self).wf(),
        ensures
            final(self).wf(),
            final(self).same_but_chr_ram(&*old(self)),
            final(self).chr_ram() == match old(self).chr_ram() {
                Some(c) => if (addr / 0x2000) % 2 == 0 {
                    Some(c.update(
                        crate::mapper::banked_index(
                            c,
                            old(self).chr_bank_regs@[(addr as int / 0x400) % 8] as usize,
                            0x400,
                            addr,
                        ),
                        value,
                    ))
                } else {
                    Some(c)
                },
                None => None,
            },
    {
        proof {
            lemma_bank_sizes();
        }
        if (addr / 0x2000) % 2 == 0 {
            let bank_idx = ((addr / 0x400) % 8) as usize;
            let bank = self.chr_bank_regs[bank_idx] as usize;
            match &mut self.chr_ram {
                Some(ram) => {
                    ram.write_mapped(bank, 1024, addr, value);
                },
                None => {},
            }
        }
    }
}

impl Mapper for Vrc7 {
    closed spec fn wf(&self) -> bool {
        &&& self.prg().len() > 0
        &&& self.prg_ram.wf()
        &&& self.audio.wf()
        &&& match self.chr_ram {
            Some(r) => r.wf(),
            None => self.chr().len() > 0,
        }
    }

    open spec fn readable(&self, bus: BusKind, addr: u16) -> bool {
        true
    }

    open spec fn writable(&self, bus: BusKind, addr: u16) -> bool {
        true
    }

    closed spec fn accepts(&self, input: MapperInput) -> bool {
        true
    }

    open spec fn fetchable(&self, address: u16) -> bool {
        true
    }

    open spec fn spec_peek(&self, bus: BusKind, addr: u16) -> u8 {
        match bus {
            BusKind::Cpu => if 0x6000 <= addr <= 0x7fff {
                self.ram()[(addr as int) % 0x2000]
            } else {
                banked(self.prg(), self.prg_regs()[(addr as int / 0x2000) % 4] as usize, 0x2000, addr)
            },
            BusKind::Ppu => {
                let bank = self.chr_regs()[(addr as int / 0x400) % 8] as usize;
                match self.chr_ram_now() {
                    Some(r) => banked(r@, bank, 0x400, addr),
                    None => banked(self.chr(), bank, 0x400, addr),
                }
            },
        }
    }

    closed spec fn spec_nametable(&self, address: u16) -> Nametable {
        self.mirroring.mirroring.spec_ppu_fetch(address)
    }

    fn register(&self, cpu: &mut AddressBus)
        ensures
            final(cpu).reads() == old(cpu).reads().push(
                (MappingFn::AndEqualsAndMask(AndEqualsAndMask(0xe000, 0x6000, 0x7fff)), DeviceKind::Mapper),
            ).push((MappingFn::AndAndMask(AndAndMask(0x8000, 0xffff)), DeviceKind::Mapper)),
            final(cpu).writes() == old(cpu).writes().push(
                (MappingFn::AndEqualsAndMask(AndEqualsAndMask(0xe000, 0x6000, 0x7fff)), DeviceKind::Mapper),
            ).push((MappingFn::AndAndMask(AndAndMask(0x8000, 0xffff)), DeviceKind::Mapper)),
    {
        cpu.register_read(DeviceKind::Mapper, AndEqualsAndMask(0xe000, 0x6000, 0x7fff).into());
        cpu.register_write(DeviceKind::Mapper, AndEqualsAndMask(0xe000, 0x6000, 0x7fff).into());
        cpu.register_read(DeviceKind::Mapper, AndAndMask(0x8000, 0xffff).into());
        cpu.register_write(DeviceKind::Mapper, AndAndMask(0x8000, 0xffff).into());
    }

    fn peek(&self, bus: BusKind, addr: u16) -> (r: u8) {
        match bus {
            BusKind::Cpu => self.read_cpu(addr),
            BusKind::Ppu => self.read_ppu(addr),
        }
    }

    fn write(&mut self, bus: BusKind, addr: u16, value: u8)
        ensures
            old(self).wrote(&*final(self), bus, addr, value),
            bus is Cpu ==> final(self).written_from(&*old(self), addr, value),
            bus is Ppu ==> final(self).same_but_chr_ram(&*old(self)),
            bus is Ppu ==> final(self).chr_ram() == match old(self).chr_ram() {
                Some(c) => if (addr / 0x2000) % 2 == 0 {
                    Some(c.update(
                        crate::mapper::banked_index(c, old(self).chr_regs()[(addr as int / 0x400) % 8] as usize, 0x400, addr),
                        value,
                    ))
                } else {
                    Some(c)
                },
                None => None,
            },
            final(self).variant() == old(self).variant(),
    {
        match bus {
            BusKind::Cpu => self.write_cpu(addr, value),
            BusKind::Ppu => self.write_ppu(addr, value),
        }
    }

    fn peek_ppu_fetch(&self, address: u16, _kind: PpuFetchKind) -> (r: Nametable) {
        self.mirroring.ppu_fetch(address)
    }

    /// The IRQ counter and the sound chip run every CPU cycle.
    fn tick(&mut self)
        ensures
            old(self).ticked_to(&*final(self)),
            final(self).same_but_units(&*old(self)),
            final(self).irq() == old(self).irq().tick_post(),
            sound_ticked(final(self).audio(), old(self).audio()),
    {
        self.irq.tick();
        self.audio.tick();
    }

    /// The sound chip's output.
    fn get_sample(&self) -> (r: Option<i16>)
        ensures
            self.sample_is(r),
            r == Some(self.audio().spec_output()),
    {
        Some(self.audio.output())
    }

    fn get_irq(&self) -> (r: bool)
        ensures
            self.irq_is(r),
            r == self.irq().triggered,
    {
        self.irq.irq()
    }

    /// Battery-backed boards save their PRG RAM.
    fn save_wram(&self) -> (r: Option<SaveWram>)
        ensures
            self.wram_is(r),
            self.battery() ==> (r matches Some(w) && w@ == self.ram()),
            !self.battery() ==> r is None,
    {
        if self.cartridge.battery {
            self.prg_ram.save_wram()
        } else {
            None
        }
    }
}

impl Vrc7 {
    /// What a write does to the board.
    pub open spec fn wrote(&self, new: &Vrc7, bus: BusKind, addr: u16, value: u8) -> bool {
        &&& bus is Cpu ==> new.written_from(self, addr, value)
        &&& bus is Ppu ==> new.same_but_chr_ram(self)
        &&& bus is Ppu ==> new.chr_ram() == match self.chr_ram() {
                    Some(c) => if (addr / 0x2000) % 2 == 0 {
                        Some(c.update(
                            crate::mapper::banked_index(c, self.chr_regs()[(addr as int / 0x400) % 8] as usize, 0x400, addr),
                            value,
                        ))
                    } else {
                        Some(c)
                    },
                    None => None,
                }
        &&& new.variant() == self.variant()
    }

    /// What a cycle does to the board.
    pub open spec fn ticked_to(&self, new: &Vrc7) -> bool {
        &&& new.same_but_units(self)
        &&& new.irq() == self.irq().tick_post()
        &&& sound_ticked(new.audio(), self.audio())
    }

    /// The board's IRQ line.
    pub open spec fn irq_is(&self, r: bool) -> bool {
        &&& r == self.irq().triggered
    }

    /// The board's audio sample.
    pub open spec fn sample_is(&self, r: Option<i16>) -> bool {
        &&& r == Some(self.audio().spec_output())
    }

    /// The battery-backed RAM the board hands out.
    pub open spec fn wram_is(&self, r: Option<SaveWram>) -> bool {
        &&& self.battery() ==> (r matches Some(w) && w@ == self.ram())
        &&& !self.battery() ==> r is None
    }
}

} // verus!
