//! Konami VRC2 and VRC4 (iNES 21, 22, 23, 25): two switchable 8 KiB PRG
//! banks, eight 1 KiB CHR banks loaded a nibble at a time, and on the VRC4
//! the VRC IRQ counter. The variants differ in which address lines select
//! the registers.
use vstd::prelude::*;

use crate::bus::{AddressBus, AndAndMask, AndEqualsAndMask, BusKind, DeviceKind, MappingFn};
use crate::cartridge::INes;
use crate::mapper::vrc_irq::VrcIrq;
use crate::mapper::{MapperInput, banked, Mapper, Mirroring, Nametable, SaveWram, SimpleMirroring};
use crate::memory::{lemma_bank_sizes, FixedMemoryBlock, Memory};
use crate::ppu::PpuFetchKind;

verus! {

#[derive(Debug, Copy, Clone, PartialEq, Eq, Structural)]
pub enum Vrc4Variant {
    Vrc2a,
    Vrc2b,
    Vrc2c,
    Vrc4a,
    Vrc4b,
    Vrc4c,
    Vrc4d,
    Vrc4e,
    Vrc4f,
}

/// The iNES mapper number a variant is found under.
pub open spec fn vrc4_number(variant: Vrc4Variant) -> int {
    match variant {
        Vrc4Variant::Vrc4a | Vrc4Variant::Vrc4c => 21,
        Vrc4Variant::Vrc2a => 22,
        Vrc4Variant::Vrc4e | Vrc4Variant::Vrc4f | Vrc4Variant::Vrc2b => 23,
        Vrc4Variant::Vrc4b | Vrc4Variant::Vrc4d | Vrc4Variant::Vrc2c => 25,
    }
}

/// The address lines wired to the chip's A0 and A1 inputs.
pub open spec fn vrc4_lines(variant: Vrc4Variant) -> (u16, u16) {
    match variant {
        Vrc4Variant::Vrc2a => (1, 0),
        Vrc4Variant::Vrc2b => (0, 1),
        Vrc4Variant::Vrc2c => (1, 0),
        Vrc4Variant::Vrc4a => (1, 2),
        Vrc4Variant::Vrc4b => (1, 0),
        Vrc4Variant::Vrc4c => (6, 7),
        Vrc4Variant::Vrc4d => (3, 2),
        Vrc4Variant::Vrc4e => (2, 3),
        Vrc4Variant::Vrc4f => (0, 1),
    }
}

/// The register address the chip sees: the top nibble of the CPU address
/// with the two wired lines as its low bits.
pub open spec fn vrc4_decode(variant: Vrc4Variant, addr: u16) -> u16 {
    let (a0, a1) = vrc4_lines(variant);
    (((addr >> a0) & 1) | (((addr >> a1) & 1) << 1u16)) | (addr & 0xf000)
}

pub open spec fn vrc4_is_vrc2(variant: Vrc4Variant) -> bool {
    variant is Vrc2a || variant is Vrc2b || variant is Vrc2c
}

/// The mirroring a $9000 write selects: VRC2 has only vertical and
/// horizontal, VRC4 also the two single screens.
pub open spec fn vrc4_mirroring(variant: Vrc4Variant, value: u8) -> Mirroring {
    if vrc4_is_vrc2(variant) {
        if value % 2 == 0 {
            Mirroring::Vertical
        } else {
            Mirroring::Horizontal
        }
    } else {
        let m = value % 4;
        if m == 0 {
            Mirroring::Vertical
        } else if m == 1 {
            Mirroring::Horizontal
        } else if m == 2 {
            Mirroring::Single(Nametable::InternalB)
        } else {
            Mirroring::Single(Nametable::InternalA)
        }
    }
}

/// The 1 KiB CHR bank two nibble registers select (VRC2 has a 4-bit high
/// nibble; VRC2a drops the lowest bit).
pub open spec fn vrc4_chr_bank(variant: Vrc4Variant, lo: u8, hi: u8) -> int {
    let hi_mask: int = if vrc4_is_vrc2(variant) { 16 } else { 32 };
    let bank = (lo as int) % 16 + ((hi as int) % hi_mask) * 16;
    if variant is Vrc2a {
        bank / 2
    } else {
        bank
    }
}

/// Which PRG register serves a CPU address at or above $8000: swap mode
/// exchanges $8000 and $C000.
pub open spec fn vrc4_prg_reg(swap: bool, addr: u16) -> int {
    let region = addr & 0xe000;
    if region == 0xe000 {
        3
    } else if region == 0xa000 {
        1
    } else if region == 0x8000 {
        if swap { 2 } else { 0 }
    } else {
        if swap { 0 } else { 2 }
    }
}

/// The CHR register a decoded address loads the low nibble of, if any.
pub open spec fn vrc4_chr_lo_slot(d: u16) -> Option<int> {
    if d == 0xb000 {
        Some(0)
    } else if d == 0xb002 {
        Some(1)
    } else if d == 0xc000 {
        Some(2)
    } else if d == 0xc002 {
        Some(3)
    } else if d == 0xd000 {
        Some(4)
    } else if d == 0xd002 {
        Some(5)
    } else if d == 0xe000 {
        Some(6)
    } else if d == 0xe002 {
        Some(7)
    } else {
        None
    }
}

/// The CHR register a decoded address loads the high nibble of, if any.
pub open spec fn vrc4_chr_hi_slot(d: u16) -> Option<int> {
    if d == 0xb001 {
        Some(0)
    } else if d == 0xb003 {
        Some(1)
    } else if d == 0xc001 {
        Some(2)
    } else if d == 0xc003 {
        Some(3)
    } else if d == 0xd001 {
        Some(4)
    } else if d == 0xd003 {
        Some(5)
    } else if d == 0xe001 {
        Some(6)
    } else if d == 0xe003 {
        Some(7)
    } else {
        None
    }
}

impl Vrc4Variant {
    fn register_decode(&self, addr: u16) -> (r: u16)
        ensures
            r == vrc4_decode(*self, addr),
    {
        let (a0, a1): (u16, u16) = match self {
            Vrc4Variant::Vrc2a => (1, 0),
            Vrc4Variant::Vrc2b => (0, 1),
            Vrc4Variant::Vrc2c => (1, 0),
            Vrc4Variant::Vrc4a => (1, 2),
            Vrc4Variant::Vrc4b => (1, 0),
            Vrc4Variant::Vrc4c => (6, 7),
            Vrc4Variant::Vrc4d => (3, 2),
            Vrc4Variant::Vrc4e => (2, 3),
            Vrc4Variant::Vrc4f => (0, 1),
        };
        let b0: u16 = (addr >> a0) & 1;
        let b1: u16 = (addr >> a1) & 1;
        (b0 | (b1 << 1)) | (addr & 0xf000)
    }

    fn is_vrc2(&self) -> (r: bool)
        ensures
            r == vrc4_is_vrc2(*self),
    {
        match self {
            Vrc4Variant::Vrc2a | Vrc4Variant::Vrc2b | Vrc4Variant::Vrc2c => true,
            _ => false,
        }
    }

    fn decode_mirroring(&self, value: u8) -> (r: Mirroring)
        ensures
            r == vrc4_mirroring(*self, value),
    {
        if self.is_vrc2() {
            if value % 2 == 0 {
                Mirroring::Vertical
            } else {
                Mirroring::Horizontal
            }
        } else {
            let m = value % 4;
            if m == 0 {
                Mirroring::Vertical
            } else if m == 1 {
                Mirroring::Horizontal
            } else if m == 2 {
                Mirroring::Single(Nametable::InternalB)
            } else {
                Mirroring::Single(Nametable::InternalA)
            }
        }
    }

    /// VRC2 mirrors its mirroring register over $9000-$9003.
    fn is_mirroring_reg(&self, decode_addr: u16) -> (r: bool)
        ensures
            r == if vrc4_is_vrc2(*self) {
                0x9000 <= decode_addr <= 0x9003
            } else {
                decode_addr == 0x9000
            },
    {
        if self.is_vrc2() {
            decode_addr == 0x9000 || decode_addr == 0x9001 || decode_addr == 0x9002
                || decode_addr == 0x9003
        } else {
            decode_addr == 0x9000
        }
    }

    fn is_swap_reg(&self, decode_addr: u16) -> (r: bool)
        ensures
            r == (!vrc4_is_vrc2(*self) && decode_addr == 0x9002),
    {
        if self.is_vrc2() {
            false
        } else {
            decode_addr == 0x9002
        }
    }

    fn has_microwire(&self) -> (r: bool)
        ensures
            r == vrc4_is_vrc2(*self),
    {
        self.is_vrc2()
    }

    fn has_irq(&self) -> (r: bool)
        ensures
            r == !vrc4_is_vrc2(*self),
    {
        !self.is_vrc2()
    }

    fn decode_chr_bank(&self, lo: u8, hi: u8) -> (r: usize)
        ensures
            r == vrc4_chr_bank(*self, lo, hi),
    {
        let lo = (lo % 16) as usize;
        let hi = if self.is_vrc2() {
            (hi % 16) as usize
        } else {
            (hi % 32) as usize
        };
        let bank = lo + hi * 16;
        match self {
            Vrc4Variant::Vrc2a => bank / 2,
            _ => bank,
        }
    }
}

fn chr_slots(d: u16) -> (r: (Option<usize>, Option<usize>))
    ensures
        r.0 matches Some(i) ==> vrc4_chr_lo_slot(d) == Some(i as int),
        r.0 is None ==> vrc4_chr_lo_slot(d) is None,
        r.1 matches Some(i) ==> vrc4_chr_hi_slot(d) == Some(i as int),
        r.1 is None ==> vrc4_chr_hi_slot(d) is None,
{
    let lo: Option<usize> = if d == 0xb000 {
        Some(0)
    } else if d == 0xb002 {
        Some(1)
    } else if d == 0xc000 {
        Some(2)
    } else if d == 0xc002 {
        Some(3)
    } else if d == 0xd000 {
        Some(4)
    } else if d == 0xd002 {
        Some(5)
    } else if d == 0xe000 {
        Some(6)
    } else if d == 0xe002 {
        Some(7)
    } else {
        None
    };
    let hi: Option<usize> = if d == 0xb001 {
        Some(0)
    } else if d == 0xb003 {
        Some(1)
    } else if d == 0xc001 {
        Some(2)
    } else if d == 0xc003 {
        Some(3)
    } else if d == 0xd001 {
        Some(4)
    } else if d == 0xd003 {
        Some(5)
    } else if d == 0xe001 {
        Some(6)
    } else if d == 0xe003 {
        Some(7)
    } else {
        None
    };
    (lo, hi)
}

pub struct Vrc4 {
    cartridge: INes,
    variant: Vrc4Variant,
    mirroring: SimpleMirroring,
    irq: VrcIrq,
    prg_ram: Option<FixedMemoryBlock<8>>,
    prg_regs: [u8; 4],
    chr_lo_regs: [u8; 8],
    chr_hi_regs: [u8; 8],
    ram_protect: bool,
    swap_mode: bool,
    microwire_latch: u8,
}

impl Vrc4 {
    pub closed spec fn prg_ram_now(&self) -> Option<FixedMemoryBlock<8>> {
        self.prg_ram
    }

    pub closed spec fn prg(&self) -> Seq<u8> {
        self.cartridge.prg_rom@
    }

    pub closed spec fn chr(&self) -> Seq<u8> {
        self.cartridge.chr_rom@
    }

    pub closed spec fn ram(&self) -> Option<Seq<u8>> {
        match self.prg_ram {
            Some(r) => Some(r@),
            None => None,
        }
    }

    pub closed spec fn variant(&self) -> Vrc4Variant {
        self.variant
    }

    pub closed spec fn irq(&self) -> VrcIrq {
        self.irq
    }

    pub closed spec fn prg_regs(&self) -> Seq<u8> {
        self.prg_regs@
    }

    pub closed spec fn chr_lo_regs(&self) -> Seq<u8> {
        self.chr_lo_regs@
    }

    pub closed spec fn chr_hi_regs(&self) -> Seq<u8> {
        self.chr_hi_regs@
    }

    pub closed spec fn ram_protect(&self) -> bool {
        self.ram_protect
    }

    pub closed spec fn swap_mode(&self) -> bool {
        self.swap_mode
    }

    pub closed spec fn microwire_latch(&self) -> u8 {
        self.microwire_latch
    }

    pub closed spec fn mirroring(&self) -> Mirroring {
        self.mirroring.mirroring
    }

    pub closed spec fn battery(&self) -> bool {
        self.cartridge.battery
    }

    /// Everything but the IRQ counter agrees.
    pub closed spec fn same_but_irq(&self, other: &Vrc4) -> bool {
        *self == (Vrc4 { irq: self.irq, ..*other })
    }

    /// The board after a CPU write of `value` to `addr`.
    pub closed spec fn write_post(self, addr: u16, value: u8) -> Vrc4 {
        if addr >= 0x8000 {
            let d = vrc4_decode(self.variant, addr);
            let irq_on = !vrc4_is_vrc2(self.variant);
            let s = if 0x8000 <= d <= 0x8003 {
                Vrc4 { prg_regs: self.prg_regs, ..self }
            } else if 0xa000 <= d <= 0xa003 {
                Vrc4 { prg_regs: self.prg_regs, ..self }
            } else if vrc4_chr_lo_slot(d) is Some || vrc4_chr_hi_slot(d) is Some {
                self
            } else if d == 0xf000 && irq_on {
                Vrc4 { irq: VrcIrq { latch: (self.irq.latch & 0xf0) | (value & 0x0f), ..self.irq }, ..self }
            } else if d == 0xf001 && irq_on {
                Vrc4 {
                    irq: VrcIrq { latch: (self.irq.latch & 0x0f) | ((value & 0x0f) << 4u8), ..self.irq },
                    ..self
                }
            } else if d == 0xf002 && irq_on {
                Vrc4 {
                    irq: VrcIrq {
                        renable: value & 0x1 != 0,
                        enabled: value & 0x2 != 0,
                        mode: if value & 0x4 != 0 {
                            crate::mapper::vrc_irq::VrcIrqMode::Cycle
                        } else {
                            crate::mapper::vrc_irq::VrcIrqMode::Scanline
                        },
                        triggered: false,
                        scanline_counter: 341,
                        counter: if value & 0x2 != 0 { self.irq.latch } else { self.irq.counter },
                        ..self.irq
                    },
                    ..self
                }
            } else if d == 0xf003 && irq_on {
                Vrc4 { irq: VrcIrq { triggered: false, ..self.irq }, ..self }
            } else if !vrc4_is_vrc2(self.variant) && d == 0x9002 {
                Vrc4 { ram_protect: value & 0x01 == 0, swap_mode: value & 0x02 != 0, ..self }
            } else if (vrc4_is_vrc2(self.variant) && 0x9000 <= d <= 0x9003) || (!vrc4_is_vrc2(
                self.variant,
            ) && d == 0x9000) {
                Vrc4 {
                    mirroring: SimpleMirroring { mirroring: vrc4_mirroring(self.variant, value) },
                    ..self
                }
            } else {
                self
            };
            s
        } else {
            match self.prg_ram {
                Some(_) => self,
                None => if vrc4_is_vrc2(self.variant) && 0x6000 <= addr < 0x7000 {
                    Vrc4 { microwire_latch: value, ..self }
                } else {
                    self
                },
            }
        }
    }

    /// A CPU write: apart from the register arrays and the RAM, which the
    /// conjuncts below give, the board is `write_post`.
    pub closed spec fn written_from(&self, old: &Vrc4, addr: u16, value: u8) -> bool {
        let d = vrc4_decode(old.variant, addr);
        &&& *self == Vrc4 {
            prg_regs: self.prg_regs,
            chr_lo_regs: self.chr_lo_regs,
            chr_hi_regs: self.chr_hi_regs,
            prg_ram: self.prg_ram,
            ..old.write_post(addr, value)
        }
        &&& self.prg_regs@ == if addr >= 0x8000 && 0x8000 <= d <= 0x8003 {
            old.prg_regs@.update(0, value)
        } else if addr >= 0x8000 && 0xa000 <= d <= 0xa003 {
            old.prg_regs@.update(1, value)
        } else {
            old.prg_regs@
        }
        &&& self.chr_lo_regs@ == if addr >= 0x8000 && vrc4_chr_lo_slot(d) is Some {
            old.chr_lo_regs@.update(vrc4_chr_lo_slot(d).unwrap(), value)
        } else {
            old.chr_lo_regs@
        }
        &&& self.chr_hi_regs@ == if addr >= 0x8000 && vrc4_chr_hi_slot(d) is Some {
            old.chr_hi_regs@.update(vrc4_chr_hi_slot(d).unwrap(), value)
        } else {
            old.chr_hi_regs@
        }
        &&& self.ram() == match old.prg_ram {
            Some(r) => if addr < 0x8000 && !old.ram_protect {
                Some(r@.update((addr as int) % 0x2000, value))
            } else {
                Some(r@)
            },
            None => None,
        }
    }

    /// The board as it comes up at power-on from this image.
    pub open spec fn powered_on(&self, cartridge: INes, variant: Vrc4Variant) -> bool {
        &&& self.prg() == cartridge.prg_rom@
        &&& self.chr() == cartridge.chr_rom@
        &&& self.variant() == variant
        &&& self.irq() == VrcIrq::initial()
        &&& self.prg_regs() == seq![
                0u8,
                0,
                ((cartridge.prg_rom@.len() / 0x2000) - 2) as u8,
                ((cartridge.prg_rom@.len() / 0x2000) - 1) as u8,
            ]
        &&& self.chr_lo_regs() == Seq::new(8, |i: int| 0u8)
        &&& self.chr_hi_regs() == Seq::new(8, |i: int| 0u8)
        &&& self.ram_protect()
        &&& !self.swap_mode()
        &&& self.microwire_latch() == 0
        &&& self.mirroring() == cartridge.mirroring.spec_into()
        &&& self.battery() == cartridge.battery
        &&& (cartridge.prg_ram_bytes > 0) == (self.ram() is Some)
        &&& self.ram() matches Some(ram) ==> ram.len() == 8 * 1024 && forall|i: int|
                0 <= i < 8 * 1024 ==> #[trigger] ram[i] == match cartridge.wram {
                    Some(w) => if i < w@.len() { w@[i] } else { 0u8 },
                    None => 0u8,
                }
        &&& cartridge.chr_rom@.len() > 0 ==> self.wf()
    }

    /// PRG RAM when the header asks for it, loaded from the save; the
    /// third and fourth PRG registers hold the last two banks, and the RAM
    /// starts protected.
    pub fn new(cartridge: INes, variant: Vrc4Variant) -> (r: Self)
        requires
            cartridge.prg_rom@.len() >= 0x4000,
        ensures
            r.powered_on(cartridge, variant),
            r.prg() == cartridge.prg_rom@,
            r.chr() == cartridge.chr_rom@,
            r.variant() == variant,
            r.irq() == VrcIrq::initial(),
            r.prg_regs() == seq![
                0u8,
                0,
                ((cartridge.prg_rom@.len() / 0x2000) - 2) as u8,
                ((cartridge.prg_rom@.len() / 0x2000) - 1) as u8,
            ],
            r.chr_lo_regs() == Seq::new(8, |i: int| 0u8),
            r.chr_hi_regs() == Seq::new(8, |i: int| 0u8),
            r.ram_protect(),
            !r.swap_mode(),
            r.microwire_latch() == 0,
            r.mirroring() == cartridge.mirroring.spec_into(),
            r.battery() == cartridge.battery,
            (cartridge.prg_ram_bytes > 0) == (r.ram() is Some),
            r.ram() matches Some(ram) ==> ram.len() == 8 * 1024 && forall|i: int|
                0 <= i < 8 * 1024 ==> #[trigger] ram[i] == match cartridge.wram {
                    Some(w) => if i < w@.len() { w@[i] } else { 0u8 },
                    None => 0u8,
                },
            cartridge.chr_rom@.len() > 0 ==> r.wf(),
    {
        let mut cartridge = cartridge;
        let last_bank = ((cartridge.prg_rom.len() / 0x2000) - 1) as u8;
        let fixed_bank = ((cartridge.prg_rom.len() / 0x2000) - 2) as u8;
        let prg_ram = if cartridge.prg_ram_bytes > 0 {
            let mut ram = FixedMemoryBlock::<8>::new();
            if let Some(wram) = cartridge.wram.take() {
                ram.restore_wram(wram);
            }
            Some(ram)
        } else {
            None
        };
        let mirroring = SimpleMirroring::new(cartridge.mirroring.into());
        let r = Self {
            variant,
            cartridge,
            mirroring,
            irq: VrcIrq::new(),
            prg_ram,
            prg_regs: [0, 0, fixed_bank, last_bank],
            chr_lo_regs: [0; 8],
            chr_hi_regs: [0; 8],
            ram_protect: true,
            swap_mode: false,
            microwire_latch: 0,
        };
        assert(r.prg_regs@ =~= seq![0u8, 0, fixed_bank, last_bank]);
        assert(r.chr_lo_regs@ =~= Seq::new(8, |i: int| 0u8));
        assert(r.chr_hi_regs@ =~= Seq::new(8, |i: int| 0u8));
        r
    }

    fn read_cpu(&self, addr: u16) -> (r: u8)
        requires
            self.wf(),
        ensures
            r == self.spec_peek(BusKind::Cpu, addr),
    {
        proof {
            lemma_bank_sizes();
        }
        if addr & 0x8000 != 0 {
            let region = addr & 0xe000;
            let bank_idx: usize = if region == 0xe000 {
                3
            } else if region == 0xa000 {
                1
            } else if region == 0x8000 {
                if self.swap_mode {
                    2
                } else {
                    0
                }
            } else {
                if self.swap_mode {
                    0
                } else {
                    2
                }
            };
            let bank = self.prg_regs[bank_idx] as usize;
            self.cartridge.prg_rom.read_mapped(bank, 8 * 1024, addr)
        } else {
            match &self.prg_ram {
                Some(ram) => {
                    if !self.ram_protect {
                        ram.read(addr)
                    } else {
                        0
                    }
                },
                None => {
                    if self.variant.has_microwire() && addr >= 0x6000 && addr < 0x7000 {
                        self.microwire_latch & 0x01
                    } else {
                        0
                    }
                },
            }
        }
    }

    fn write_cpu(&mut self, addr: u16, value: u8)
        requires
            old(self).wf(),
        ensures
            final(self).wf(),
            final(self).written_from(&*old(self), addr, value),
    {
        if addr >= 0x8000 {
            let d = self.variant.register_decode(addr);
            let (chr_lo, chr_hi) = chr_slots(d);
            let irq_on = self.variant.has_irq();
            if 0x8000 <= d && d <= 0x8003 {
                self.prg_regs[0] = value;
            } else if 0xa000 <= d && d <= 0xa003 {
                self.prg_regs[1] = value;
            } else if chr_lo.is_some() || chr_hi.is_some() {
            } else if d == 0xf000 && irq_on {
                self.irq.latch_lo(value);
            } else if d == 0xf001 && irq_on {
                self.irq.latch_hi(value);
            } else if d == 0xf002 && irq_on {
                self.irq.control(value);
            } else if d == 0xf003 && irq_on {
                self.irq.acknowledge();
            } else if self.variant.is_swap_reg(d) {
                self.ram_protect = value & 0x01 == 0;
                self.swap_mode = value & 0x02 != 0;
            } else if self.variant.is_mirroring_reg(d) {
                let mirroring = self.variant.decode_mirroring(value);
                self.mirroring.set(mirroring);
            }
            if let Some(lo) = chr_lo {
                self.chr_lo_regs[lo] = value;
            }
            if let Some(hi) = chr_hi {
                self.chr_hi_regs[hi] = value;
            }
        } else {
            let protect = self.ram_protect;
            let microwire = self.variant.has_microwire();
            match &mut self.prg_ram {
                Some(ram) => {
                    if !protect {
                        ram.write(addr, value);
                    }
                },
                None => {
                    if microwire && addr >= 0x6000 && addr < 0x7000 {
                        self.microwire_latch = value;
                    }
                },
            }
        }
    }
}

impl Mapper for Vrc4 {
    closed spec fn wf(&self) -> bool {
        &&& self.prg().len() > 0
        &&& self.chr().len() > 0
        &&& match self.prg_ram {
            Some(r) => r.wf(),
            None => true,
        }
    }

    /// The PPU side decodes only the pattern tables.
    open spec fn readable(&self, bus: BusKind, addr: u16) -> bool {
        bus is Ppu ==> addr < 0x2000
    }

    open spec fn writable(&self, bus: BusKind, addr: u16) -> bool {
        true
    }

    closed spec fn accepts(&self, input: MapperInput) -> bool {
        true
    }

    open spec fn fetchable(&self, address: u16) -> bool {
        true
    }

    open spec fn spec_peek(&self, bus: BusKind, addr: u16) -> u8 {
        match bus {
            BusKind::Cpu => if addr & 0x8000 != 0 {
                banked(self.prg(), self.prg_regs()[vrc4_prg_reg(self.swap_mode(), addr)] as usize, 0x2000, addr)
            } else {
                match self.prg_ram_now() {
                    Some(r) => if !self.ram_protect() {
                        r@[(addr as int) % 0x2000]
                    } else {
                        0
                    },
                    None => if vrc4_is_vrc2(self.variant()) && 0x6000 <= addr < 0x7000 {
                        self.microwire_latch() & 0x01
                    } else {
                        0
                    },
                }
            },
            BusKind::Ppu => {
                let i = (addr as int) / 0x400;
                banked(
                    self.chr(),
                    vrc4_chr_bank(self.variant(), self.chr_lo_regs()[i], self.chr_hi_regs()[i]) as usize,
                    0x400,
                    addr,
                )
            },
        }
    }

    closed spec fn spec_nametable(&self, address: u16) -> Nametable {
        self.mirroring.mirroring.spec_ppu_fetch(address)
    }

    fn register(&self, cpu: &mut AddressBus)
        ensures
            final(cpu).reads() == old(cpu).reads().push(
                (MappingFn::AndEqualsAndMask(AndEqualsAndMask(0xe000, 0x6000, 0x7fff)), DeviceKind::Mapper),
            ).push((MappingFn::AndAndMask(AndAndMask(0x8000, 0xffff)), DeviceKind::Mapper)),
            final(cpu).writes() == old(cpu).writes().push(
                (MappingFn::AndEqualsAndMask(AndEqualsAndMask(0xe000, 0x6000, 0x7fff)), DeviceKind::Mapper),
            ).push((MappingFn::AndAndMask(AndAndMask(0x8000, 0xffff)), DeviceKind::Mapper)),
    {
        cpu.register_read(DeviceKind::Mapper, AndEqualsAndMask(0xe000, 0x6000, 0x7fff).into());
        cpu.register_write(DeviceKind::Mapper, AndEqualsAndMask(0xe000, 0x6000, 0x7fff).into());
        cpu.register_read(DeviceKind::Mapper, AndAndMask(0x8000, 0xffff).into());
        cpu.register_write(DeviceKind::Mapper, AndAndMask(0x8000, 0xffff).into());
    }

    fn peek(&self, bus: BusKind, addr: u16) -> (r: u8) {
        match bus {
            BusKind::Cpu => self.read_cpu(addr),
            BusKind::Ppu => {
                proof {
                    lemma_bank_sizes();
                }
                let bank_idx = (addr / 0x400) as usize;
                let bank = self.variant.decode_chr_bank(
                    self.chr_lo_regs[bank_idx],
                    self.chr_hi_regs[bank_idx],
                );
                self.cartridge.chr_rom.read_mapped(bank, 1024, addr)
            },
        }
    }

    /// $8000 and $A000 load PRG registers, $B000-$E003 the CHR nibbles,
    /// $F000-$F003 the VRC4 IRQ, $9000 the mirroring (and $9002 the VRC4
    /// swap and RAM control); below $8000 the write goes to unprotected PRG
    /// RAM, or without RAM to the VRC2 microwire latch.
    fn write(&mut self, bus: BusKind, addr: u16, value: u8)
        ensures
            old(self).wrote(&*final(self), bus, addr, value),
            bus is Ppu ==> *final(self) == *old(self),
            bus is Cpu ==> final(self).written_from(&*old(self), addr, value),
            final(self).variant() == old(self).variant(),
    {
        match bus {
            BusKind::Cpu => self.write_cpu(addr, value),
            BusKind::Ppu => (),
        }
    }

    fn peek_ppu_fetch(&self, address: u16, _kind: PpuFetchKind) -> (r: Nametable) {
        self.mirroring.ppu_fetch(address)
    }

    /// The VRC4 clocks its IRQ counter every CPU cycle.
    fn tick(&mut self)
        ensures
            old(self).ticked_to(&*final(self)),
            final(self).same_but_irq(&*old(self)),
            final(self).variant() == old(self).variant(),
            final(self).irq() == if vrc4_is_vrc2(old(self).variant()) {
                old(self).irq()
            } else {
                old(self).irq().tick_post()
            },
    {
        if self.variant.has_irq() {
            self.irq.tick();
        }
    }

    fn get_irq(&self) -> (r: bool)
        ensures
            self.irq_is(r),
            r == (!vrc4_is_vrc2(self.variant()) && self.irq().triggered),
    {
        if self.variant.has_irq() {
            self.irq.irq()
        } else {
            false
        }
    }

    /// Battery-backed boards with PRG RAM save it.
    fn save_wram(&self) -> (r: Option<SaveWram>)
        ensures
            self.wram_is(r),
            (self.battery() && self.ram() is Some) ==> (r matches Some(w) && w@ == self.ram().unwrap()),
            !(self.battery() && self.ram() is Some) ==> r is None,
    {
        if self.cartridge.battery {
            match &self.prg_ram {
                Some(r) => r.save_wram(),
                None => None,
            }
        } else {
            None
        }
    }
}

impl Vrc4 {
    /// What a write does to the board.
    pub open spec fn wrote(&self, new: &Vrc4, bus: BusKind, addr: u16, value: u8) -> bool {
        &&& bus is Ppu ==> *new == *self
        &&& bus is Cpu ==> new.written_from(self, addr, value)
        &&& new.variant() == self.variant()
    }

    /// What a cycle does to the board.
    pub open spec fn ticked_to(&self, new: &Vrc4) -> bool {
        &&& new.same_but_irq(self)
        &&& new.variant() == self.variant()
        &&& new.irq() == if vrc4_is_vrc2(self.variant()) {
                    self.irq()
                } else {
                    self.irq().tick_post()
                }
    }

    /// The board's IRQ line.
    pub open spec fn irq_is(&self, r: bool) -> bool {
        &&& r == (!vrc4_is_vrc2(self.variant()) && self.irq().triggered)
    }

    /// The battery-backed RAM the board hands out.
    pub open spec fn wram_is(&self, r: Option<SaveWram>) -> bool {
        &&& (self.battery() && self.ram() is Some) ==> (r matches Some(w) && w@ == self.ram().unwrap())
        &&& !(self.battery() && self.ram() is Some) ==> r is None
    }
}

} // verus!
