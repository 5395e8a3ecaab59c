//! MMC3 (TxROM) and MMC6: eight bank registers behind a select register,
//! PRG RAM with protection, and a scanline IRQ counter clocked by rising
//! edges of PPU address line A12.
use vstd::prelude::*;

use crate::bits::{lemma_u16, lemma_u8};
use crate::bus::{AddressBus, AndAndMask, AndEqualsAndMask, BusKind, DeviceKind, MappingFn};
use crate::cartridge::INes;
use crate::mapper::{MapperInput, banked, banked_index, Mapper, Mirroring, Nametable, SaveWram, SimpleMirroring};
use crate::memory::{lemma_bank_sizes, FixedMemoryBlock, Memory, MemoryBlock};
use crate::ppu::PpuFetchKind;

verus! {

/// How the PRG RAM window at $6000-$7FFF currently answers.
#[derive(Debug, Copy, Clone, PartialEq, Eq, Structural)]
pub enum PrgRamState {
    ReadWrite,
    ReadOnly,
    Zero,
    OpenBus,
}

#[derive(Debug, Copy, Clone, PartialEq, Eq, Structural)]
pub enum Mmc3Variant {
    Mmc3,
    Mmc3AltIrq,
    Mmc6,
}

impl Mmc3Variant {
    fn is_mmc6(&self) -> (r: bool)
        ensures
            r == (*self is Mmc6),
    {
        match self {
            Mmc3Variant::Mmc6 => true,
            _ => false,
        }
    }

    fn is_alt_irq(&self) -> (r: bool)
        ensures
            r == (*self is Mmc3AltIrq),
    {
        match self {
            Mmc3Variant::Mmc3AltIrq => true,
            _ => false,
        }
    }
}

/// The RAM state for an access to `addr`. MMC3 has one enable and one
/// write-protect bit; MMC6 protects its two 512-byte halves separately
/// (unreadable halves read as zero while the other half is enabled).
pub open spec fn mmc3_ram_state(variant: Mmc3Variant, enabled: bool, reg: u8, addr: u16) -> PrgRamState {
    if !enabled {
        PrgRamState::OpenBus
    } else if !(variant is Mmc6) {
        if reg & 0x40 == 0 {
            PrgRamState::ReadWrite
        } else {
            PrgRamState::ReadOnly
        }
    } else {
        let s = addr & 0x7200;
        if s == 0x7000 && reg & 0x30 == 0x30 {
            PrgRamState::ReadWrite
        } else if s == 0x7200 && reg & 0xc0 == 0xc0 {
            PrgRamState::ReadWrite
        } else if s == 0x7000 && reg & 0x20 != 0 {
            PrgRamState::ReadOnly
        } else if s == 0x7200 && reg & 0x80 != 0 {
            PrgRamState::ReadOnly
        } else if reg & 0xa0 != 0 {
            PrgRamState::Zero
        } else {
            PrgRamState::OpenBus
        }
    }
}

/// The 8 KiB PRG bank at `addr`: R6 and R7 switch, the last bank is
/// fixed, and bit 6 of the select register swaps R6 with the
/// second-to-last bank.
pub open spec fn mmc3_prg_bank(bank_data: Seq<u8>, select: u8, last: u8, addr: u16) -> int {
    let block = ((addr as int) / 0x2000) % 4;
    if select & 0x40 == 0 {
        if block == 0 {
            bank_data[6] as int
        } else if block == 1 {
            bank_data[7] as int
        } else if block == 2 {
            last - 1
        } else {
            last as int
        }
    } else {
        if block == 0 {
            last - 1
        } else if block == 1 {
            bank_data[7] as int
        } else if block == 2 {
            bank_data[6] as int
        } else {
            last as int
        }
    }
}

/// The CHR bank and its size: R0 and R1 select 2 KiB banks, R2-R5 1 KiB
/// banks; bit 7 of the select register swaps the two pattern tables.
pub open spec fn mmc3_chr_map(bank_data: Seq<u8>, select: u8, addr: u16) -> (int, int) {
    let n = ((addr as int) / 0x400) % 8;
    if select & 0x80 == 0 {
        if n < 2 {
            ((bank_data[0] / 2) as int, 0x800)
        } else if n < 4 {
            ((bank_data[1] / 2) as int, 0x800)
        } else {
            (bank_data[n - 2] as int, 0x400)
        }
    } else {
        if n == 4 || n == 5 {
            ((bank_data[0] / 2) as int, 0x800)
        } else if n == 6 || n == 7 {
            ((bank_data[1] / 2) as int, 0x800)
        } else {
            (bank_data[n + 2] as int, 0x400)
        }
    }
}

/// The addresses the board decodes above $8000 once the bus has masked
/// them with $E001.
pub open spec fn mmc3_register(addr: u16) -> bool {
    addr == 0x8000 || addr == 0x8001 || addr == 0xa000 || addr == 0xa001 || addr == 0xc000
        || addr == 0xc001 || addr == 0xe000 || addr == 0xe001
}

pub struct Mmc3 {
    cartridge: INes,
    variant: Mmc3Variant,
    mirroring: SimpleMirroring,
    prg_ram: MemoryBlock,
    chr_ram: Option<FixedMemoryBlock<8>>,
    bank_data: [u8; 8],
    bank_select: u8,
    ram_enabled: bool,
    ram_reg: u8,
    irq: bool,
    irq_enabled: bool,
    irq_latch: u8,
    irq_counter: u8,
    irq_reload_pending: bool,
    irq_force_reload_pending: bool,
    irq_a12: bool,
    irq_a12_low_cycles: u64,
    last_prg: u8,
    ext_nt: Option<FixedMemoryBlock<2>>,
}

impl Mmc3 {
    pub closed spec fn chr_ram_now(&self) -> Option<FixedMemoryBlock<8>> {
        self.chr_ram
    }

    pub closed spec fn ram_reg_now(&self) -> u8 {
        self.ram_reg
    }

    pub closed spec fn ram_enabled_now(&self) -> bool {
        self.ram_enabled
    }

    pub closed spec fn ext_nt_now(&self) -> Option<FixedMemoryBlock<2>> {
        self.ext_nt
    }

    pub closed spec fn prg(&self) -> Seq<u8> {
        self.cartridge.prg_rom@
    }

    pub closed spec fn chr(&self) -> Seq<u8> {
        match self.chr_ram {
            Some(r) => r@,
            None => self.cartridge.chr_rom@,
        }
    }

    pub closed spec fn has_chr_ram(&self) -> bool {
        self.chr_ram is Some
    }

    pub closed spec fn ram(&self) -> Seq<u8> {
        self.prg_ram@
    }

    pub closed spec fn nametables(&self) -> Option<Seq<u8>> {
        match self.ext_nt {
            Some(n) => Some(n@),
            None => None,
        }
    }

    pub closed spec fn variant(&self) -> Mmc3Variant {
        self.variant
    }

    pub closed spec fn bank_data(&self) -> Seq<u8> {
        self.bank_data@
    }

    pub closed spec fn bank_select(&self) -> u8 {
        self.bank_select
    }

    pub closed spec fn ram_control(&self) -> (bool, u8) {
        (self.ram_enabled, self.ram_reg)
    }

    pub closed spec fn last_prg(&self) -> u8 {
        self.last_prg
    }

    pub closed spec fn mirroring(&self) -> Mirroring {
        self.mirroring.mirroring
    }

    pub closed spec fn battery(&self) -> bool {
        self.cartridge.battery
    }

    /// The IRQ line and whether it is enabled.
    pub closed spec fn irq_line(&self) -> (bool, bool) {
        (self.irq, self.irq_enabled)
    }

    /// Latch, counter, and the pending reload flags (after a zero count, and
    /// forced by a $C001 write).
    pub closed spec fn irq_counter(&self) -> (u8, u8, bool, bool) {
        (self.irq_latch, self.irq_counter, self.irq_reload_pending, self.irq_force_reload_pending)
    }

    /// The last A12 level seen and the CPU cycles it has been low.
    pub closed spec fn a12(&self) -> (bool, u64) {
        (self.irq_a12, self.irq_a12_low_cycles)
    }

    /// One clock of the scanline counter: it reloads from the latch when it
    /// is zero or a reload is pending, else counts down (flagging a reload
    /// when it reaches zero); reaching zero while enabled raises the IRQ,
    /// except on the alternate-IRQ variant when the count was already zero
    /// without a forced reload.
    pub closed spec fn clocked(self) -> Mmc3 {
        let was_zero = self.variant is Mmc3AltIrq && self.irq_counter == 0
            && !self.irq_force_reload_pending;
        let s = if self.irq_reload_pending || self.irq_force_reload_pending || self.irq_counter
            == 0 {
            Mmc3 {
                irq_counter: self.irq_latch,
                irq_reload_pending: false,
                irq_force_reload_pending: false,
                ..self
            }
        } else {
            let c = (self.irq_counter - 1) as u8;
            Mmc3 { irq_counter: c, irq_reload_pending: c == 0, ..self }
        };
        if s.irq_counter == 0 && s.irq_enabled && !was_zero {
            Mmc3 { irq: true, ..s }
        } else {
            s
        }
    }

    /// A PPU fetch of `addr`: a rising edge of A12 after more than three
    /// CPU cycles low clocks the counter.
    pub closed spec fn fetched(self, addr: u16) -> Mmc3 {
        let a12 = addr & 0x1000 != 0;
        let clock = a12 && !self.irq_a12 && self.irq_a12_low_cycles > 3;
        let s = Mmc3 {
            irq_a12_low_cycles: if a12 { 0 } else { self.irq_a12_low_cycles },
            irq_a12: a12,
            ..self
        };
        if clock {
            s.clocked()
        } else {
            s
        }
    }

    /// The board after a CPU write to one of its registers, apart from the
    /// bank data array (given by `written_from`).
    pub closed spec fn register_post(self, addr: u16, value: u8) -> Mmc3 {
        if addr == 0x8000 {
            Mmc3 {
                bank_select: value,
                ram_enabled: if self.variant is Mmc6 { value & 0x20 != 0 } else { self.ram_enabled },
                ..self
            }
        } else if addr == 0xa000 {
            if self.ext_nt is Some {
                self
            } else {
                Mmc3 {
                    mirroring: SimpleMirroring {
                        mirroring: if value & 1 == 0 {
                            Mirroring::Vertical
                        } else {
                            Mirroring::Horizontal
                        },
                    },
                    ..self
                }
            }
        } else if addr == 0xa001 {
            Mmc3 {
                ram_enabled: if self.variant is Mmc6 { self.ram_enabled } else { value & 0x80 != 0 },
                ram_reg: value,
                ..self
            }
        } else if addr == 0xc000 {
            Mmc3 { irq_latch: value, ..self }
        } else if addr == 0xc001 {
            Mmc3 { irq_force_reload_pending: true, ..self }
        } else if addr == 0xe000 {
            Mmc3 { irq: false, irq_enabled: false, ..self }
        } else if addr == 0xe001 {
            Mmc3 { irq_enabled: true, ..self }
        } else {
            self
        }
    }

    /// A CPU write: $6000-$7FFF writes the RAM when it is read-write, the
    /// registers otherwise.
    pub closed spec fn written_from(&self, old: &Mmc3, addr: u16, value: u8) -> bool {
        if addr & 0xe000 == 0x6000 {
            &&& *self == Mmc3 { prg_ram: self.prg_ram, ..*old }
            &&& self.prg_ram@ == if mmc3_ram_state(old.variant, old.ram_enabled, old.ram_reg, addr)
                == PrgRamState::ReadWrite {
                old.prg_ram@.update(
                    banked_index(
                        old.prg_ram@,
                        0,
                        if old.variant is Mmc6 { 0x400 } else { 0x2000 },
                        addr,
                    ),
                    value,
                )
            } else {
                old.prg_ram@
            }
        } else {
            &&& *self == Mmc3 { bank_data: self.bank_data, ..old.register_post(addr, value) }
            &&& self.bank_data@ == if addr == 0x8001 {
                old.bank_data@.update((old.bank_select % 8) as int, value)
            } else {
                old.bank_data@
            }
        }
    }

    /// A PPU write lands in the extra nametable RAM or the CHR RAM.
    pub closed spec fn ppu_written_from(&self, old: &Mmc3, addr: u16, value: u8) -> bool {
        if addr & 0x2000 != 0 {
            &&& *self == Mmc3 { ext_nt: self.ext_nt, ..*old }
            &&& self.nametables() == match old.ext_nt {
                Some(n) => Some(n@.update((addr as int) % 0x800, value)),
                None => None,
            }
        } else {
            &&& *self == Mmc3 { chr_ram: self.chr_ram, ..*old }
            &&& self.chr() == match old.chr_ram {
                Some(r) => r@.update((addr as int) % 0x2000, value),
                None => old.chr(),
            }
            &&& self.has_chr_ram() == old.has_chr_ram()
        }
    }

    /// Everything but the A12 cycle count agrees.
    pub closed spec fn same_but_low_cycles(&self, other: &Mmc3) -> bool {
        *self == (Mmc3 { irq_a12_low_cycles: self.irq_a12_low_cycles, ..*other })
    }

    /// An image the board can run: at least two PRG banks, the last of
    /// which an 8-bit register can name.
    pub open spec fn usable(cartridge: &INes) -> bool {
        2 <= cartridge.prg_rom@.len() / 0x2000 <= 256
    }

    /// The board as it comes up at power-on from this image.
    pub open spec fn powered_on(&self, cartridge: INes, variant: Mmc3Variant) -> bool {
        &&& self.prg() == cartridge.prg_rom@
        &&& self.variant() == variant
        &&& self.has_chr_ram() == (cartridge.chr_rom@.len() == 0)
        &&& !self.has_chr_ram() ==> self.chr() == cartridge.chr_rom@
        &&& self.has_chr_ram() ==> self.chr() == Seq::new(8 * 1024, |i: int| 0u8)
        &&& self.ram().len() == if variant is Mmc6 { 1024int } else { 8192int }
        &&& forall|i: int|
                0 <= i < self.ram().len() ==> #[trigger] self.ram()[i] == match cartridge.wram {
                    Some(w) => if i < w@.len() { w@[i] } else { 0u8 },
                    None => 0u8,
                }
        &&& cartridge.alternative_mirroring ==> self.mirroring() == Mirroring::FourScreen
                && self.nametables() == Some(Seq::new(2048, |i: int| 0u8))
        &&& !cartridge.alternative_mirroring ==> self.mirroring() == cartridge.mirroring.spec_into()
                && self.nametables() is None
        &&& self.bank_data() == Seq::new(8, |i: int| 0u8)
        &&& self.bank_select() == 0
        &&& self.ram_control() == (true, 0u8)
        &&& self.irq_line() == (false, false)
        &&& self.irq_counter() == (0u8, 0u8, false, false)
        &&& self.a12() == (false, 0u64)
        &&& self.last_prg() == ((cartridge.prg_rom@.len() / 0x2000) - 1) as u8
        &&& self.battery() == cartridge.battery
        &&& Self::usable(&cartridge) ==> self.wf()
    }

    /// PRG RAM (1 KiB on MMC6, else 8 KiB) loaded from the save; CHR RAM
    /// replaces an empty CHR ROM; the alternative-mirroring header bit
    /// gives four-screen mirroring with 2 KiB of extra nametable RAM.
    pub fn new(cartridge: INes, variant: Mmc3Variant) -> (r: Mmc3)
        requires
            cartridge.prg_rom@.len() >= 0x2000,
        ensures
            r.powered_on(cartridge, variant),
            r.prg() == cartridge.prg_rom@,
            r.variant() == variant,
            r.has_chr_ram() == (cartridge.chr_rom@.len() == 0),
            !r.has_chr_ram() ==> r.chr() == cartridge.chr_rom@,
            r.has_chr_ram() ==> r.chr() == Seq::new(8 * 1024, |i: int| 0u8),
            r.ram().len() == if variant is Mmc6 { 1024int } else { 8192int },
            forall|i: int|
                0 <= i < r.ram().len() ==> #[trigger] r.ram()[i] == match cartridge.wram {
                    Some(w) => if i < w@.len() { w@[i] } else { 0u8 },
                    None => 0u8,
                },
            cartridge.alternative_mirroring ==> r.mirroring() == Mirroring::FourScreen
                && r.nametables() == Some(Seq::new(2048, |i: int| 0u8)),
            !cartridge.alternative_mirroring ==> r.mirroring() == cartridge.mirroring.spec_into()
                && r.nametables() is None,
            r.bank_data() == Seq::new(8, |i: int| 0u8),
            r.bank_select() == 0,
            r.ram_control() == (true, 0u8),
            r.irq_line() == (false, false),
            r.irq_counter() == (0u8, 0u8, false, false),
            r.a12() == (false, 0u64),
            r.last_prg() == ((cartridge.prg_rom@.len() / 0x2000) - 1) as u8,
            r.battery() == cartridge.battery,
            Self::usable(&cartridge) ==> r.wf(),
    {
        let mut cartridge = cartridge;
        let kb: usize = if variant.is_mmc6() {
            1
        } else {
            8
        };
        let mut prg_ram = MemoryBlock::new(kb);
        if let Some(wram) = cartridge.wram.take() {
            prg_ram.restore_wram(wram);
        }
        let chr_ram = if cartridge.chr_rom.len() == 0 {
            Some(FixedMemoryBlock::<8>::new())
        } else {
            None
        };
        let (mirroring, ext_nt) = if cartridge.alternative_mirroring {
            (SimpleMirroring::new(Mirroring::FourScreen), Some(FixedMemoryBlock::<2>::new()))
        } else {
            (SimpleMirroring::new(cartridge.mirroring.into()), None)
        };
        let last_prg = (cartridge.prg_rom.len() / 0x2000 - 1) as u8;
        let r = Self {
            cartridge,
            variant,
            mirroring,
            prg_ram,
            chr_ram,
            bank_data: [0; 8],
            bank_select: 0,
            ram_enabled: true,
            ram_reg: 0,
            irq: false,
            irq_enabled: false,
            irq_latch: 0,
            irq_counter: 0,
            irq_reload_pending: false,
            irq_force_reload_pending: false,
            irq_a12: false,
            irq_a12_low_cycles: 0,
            ext_nt,
            last_prg,
        };
        assert(r.bank_data@ =~= Seq::new(8, |i: int| 0u8));
        proof {
            if Self::usable(&r.cartridge) {
                let n = r.cartridge.prg_rom@.len() / 0x2000;
                assert(1 <= n - 1 <= 255);
                assert(((n - 1) as u8) == n - 1);
            }
        }
        r
    }

    fn prg_ram_state(&self, addr: u16) -> (r: PrgRamState)
        ensures
            r == mmc3_ram_state(self.variant, self.ram_enabled, self.ram_reg, addr),
    {
        if !self.ram_enabled {
            PrgRamState::OpenBus
        } else if !self.variant.is_mmc6() {
            if self.ram_reg & 0x40 == 0 {
                PrgRamState::ReadWrite
            } else {
                PrgRamState::ReadOnly
            }
        } else {
            let s = addr & 0x7200;
            if s == 0x7000 && self.ram_reg & 0x30 == 0x30 {
                PrgRamState::ReadWrite
            } else if s == 0x7200 && self.ram_reg & 0xc0 == 0xc0 {
                PrgRamState::ReadWrite
            } else if s == 0x7000 && self.ram_reg & 0x20 != 0 {
                PrgRamState::ReadOnly
            } else if s == 0x7200 && self.ram_reg & 0x80 != 0 {
                PrgRamState::ReadOnly
            } else if self.ram_reg & 0xa0 != 0 {
                PrgRamState::Zero
            } else {
                PrgRamState::OpenBus
            }
        }
    }

    fn read_prg(&self, addr: u16) -> (r: u8)
        requires
            self.wf(),
        ensures
            r == banked(
                self.prg(),
                mmc3_prg_bank(self.bank_data@, self.bank_select, self.last_prg, addr) as usize,
                0x2000,
                addr,
            ),
    {
        proof {
            lemma_u16(addr);
            lemma_bank_sizes();
        }
        let block = (addr >> 13) & 3;
        let bank: u8 = if self.bank_select & 0x40 == 0 {
            if block == 0 {
                self.bank_data[6]
            } else if block == 1 {
                self.bank_data[7]
            } else if block == 2 {
                self.last_prg - 1
            } else {
                self.last_prg
            }
        } else {
            if block == 0 {
                self.last_prg - 1
            } else if block == 1 {
                self.bank_data[7]
            } else if block == 2 {
                self.bank_data[6]
            } else {
                self.last_prg
            }
        };
        self.cartridge.prg_rom.read_mapped(bank as usize, 8 * 1024, addr)
    }

    fn map_chr(&self, addr: u16) -> (r: (usize, usize))
        requires
            self.chr_ram is None,
        ensures
            r.0 == mmc3_chr_map(self.bank_data@, self.bank_select, addr).0,
            r.1 == mmc3_chr_map(self.bank_data@, self.bank_select, addr).1,
    {
        proof {
            lemma_u16(addr);
            lemma_u8(self.bank_data[0]);
            lemma_u8(self.bank_data[1]);
        }
        let n = ((addr >> 10) & 7) as usize;
        if self.bank_select & 0x80 == 0 {
            if n < 2 {
                ((self.bank_data[0] >> 1) as usize, 2 * 1024)
            } else if n < 4 {
                ((self.bank_data[1] >> 1) as usize, 2 * 1024)
            } else {
                (self.bank_data[n - 2] as usize, 1024)
            }
        } else {
            if n == 4 || n == 5 {
                ((self.bank_data[0] >> 1) as usize, 2 * 1024)
            } else if n == 6 || n == 7 {
                ((self.bank_data[1] >> 1) as usize, 2 * 1024)
            } else {
                (self.bank_data[n + 2] as usize, 1024)
            }
        }
    }

    fn read_cpu(&self, addr: u16) -> (r: u8)
        requires
            self.wf(),
        ensures
            r == self.spec_peek(BusKind::Cpu, addr),
    {
        proof {
            lemma_bank_sizes();
        }
        if addr & 0xe000 == 0x6000 {
            let state = self.prg_ram_state(addr);
            match state {
                PrgRamState::ReadWrite | PrgRamState::ReadOnly => {
                    if self.variant.is_mmc6() {
                        self.prg_ram.read_mapped(0, 1024, addr)
                    } else {
                        self.prg_ram.read_mapped(0, 8 * 1024, addr)
                    }
                },
                PrgRamState::Zero => 0,
                PrgRamState::OpenBus => addr as u8,
            }
        } else {
            self.read_prg(addr)
        }
    }

    fn read_ppu(&self, addr: u16) -> (r: u8)
        requires
            self.wf(),
        ensures
            r == self.spec_peek(BusKind::Ppu, addr),
    {
        proof {
            lemma_bank_sizes();
        }
        if addr & 0x2000 != 0 {
            match &self.ext_nt {
                Some(nt) => nt.read(addr),
                None => 0,
            }
        } else {
            match &self.chr_ram {
                Some(ram) => ram.read_mapped(0, 8 * 1024, addr),
                None => {
                    let (bank, size) = self.map_chr(addr);
                    self.cartridge.chr_rom.read_mapped(bank, size, addr)
                },
            }
        }
    }

    fn write_ram(&mut self, addr: u16, value: u8)
        requires
            old(self).wf(),
            addr & 0xe000 == 0x6000,
        ensures
            final(self).wf(),
            final(self).written_from(&*old(self), addr, value),
    {
        proof {
            lemma_bank_sizes();
        }
        let state = self.prg_ram_state(addr);
        if state == PrgRamState::ReadWrite {
            if self.variant.is_mmc6() {
                self.prg_ram.write_mapped(0, 1024, addr, value);
            } else {
                self.prg_ram.write_mapped(0, 8 * 1024, addr, value);
            }
        }
    }

    fn write_register(&mut self, addr: u16, value: u8)
        requires
            old(self).wf(),
            addr & 0xe000 != 0x6000,
            mmc3_register(addr),
        ensures
            final(self).wf(),
            final(self).written_from(&*old(self), addr, value),
    {
        if addr == 0x8000 {
            self.bank_select = value;
            if self.variant.is_mmc6() {
                self.ram_enabled = value & 0x20 != 0;
            }
        } else if addr == 0x8001 {
            proof {
                lemma_u8(self.bank_select);
            }
            let bank_index = (self.bank_select & 0x7) as usize;
            self.bank_data[bank_index] = value;
        } else if addr == 0xa000 {
            if self.ext_nt.is_none() {
                if value & 1 == 0 {
                    self.mirroring.vertical();
                } else {
                    self.mirroring.horizontal();
                }
            }
        } else if addr == 0xa001 {
            if !self.variant.is_mmc6() {
                self.ram_enabled = value & 0x80 != 0;
            }
            self.ram_reg = value;
        } else if addr == 0xc000 {
            self.irq_latch = value;
        } else if addr == 0xc001 {
            self.irq_force_reload_pending = true;
        } else if addr == 0xe000 {
            self.irq = false;
            self.irq_enabled = false;
        } else {
            self.irq_enabled = true;
        }
    }

    fn write_cpu(&mut self, addr: u16, value: u8)
        requires
            old(self).wf(),
            addr & 0xe000 == 0x6000 || mmc3_register(addr),
        ensures
            final(self).wf(),
            final(self).written_from(&*old(self), addr, value),
    {
        if addr & 0xe000 == 0x6000 {
            self.write_ram(addr, value);
        } else {
            self.write_register(addr, value);
        }
    }

    fn write_ppu(&mut self, addr: u16, value: u8)
        requires
            old(self).wf(),
        ensures
            final(self).wf(),
            final(self).ppu_written_from(&*old(self), addr, value),
    {
        proof {
            lemma_bank_sizes();
        }
        if addr & 0x2000 != 0 {
            if let Some(nt) = &mut self.ext_nt {
                nt.write(addr, value);
            }
        } else {
            if let Some(ram) = &mut self.chr_ram {
                ram.write(addr, value);
            }
        }
    }

    fn clock_counter(&mut self)
        ensures
            *final(self) == old(self).clocked(),
    {
        let was_zero = self.variant.is_alt_irq() && self.irq_counter == 0
            && !self.irq_force_reload_pending;
        if self.irq_reload_pending || self.irq_force_reload_pending || self.irq_counter == 0 {
            self.irq_counter = self.irq_latch;
            self.irq_reload_pending = false;
            self.irq_force_reload_pending = false;
        } else {
            self.irq_counter = self.irq_counter - 1;
            if self.irq_counter == 0 {
                self.irq_reload_pending = true;
            }
        }
        if self.irq_counter == 0 && self.irq_enabled && !was_zero {
            self.irq = true;
        }
    }

    fn irq_addr(&mut self, addr: u16)
        ensures
            *final(self) == old(self).fetched(addr),
    {
        let a12 = addr & 0x1000 != 0;
        let clock = a12 && !self.irq_a12 && self.irq_a12_low_cycles > 3;
        if a12 {
            self.irq_a12_low_cycles = 0;
        }
        self.irq_a12 = a12;
        if clock {
            self.clock_counter();
        }
    }
}

impl Mapper for Mmc3 {
    closed spec fn wf(&self) -> bool {
        &&& self.prg().len() > 0
        &&& self.last_prg >= 1
        &&& self.prg_ram@.len() > 0
        &&& match self.chr_ram {
            Some(r) => r.wf(),
            None => self.cartridge.chr_rom@.len() > 0,
        }
        &&& match self.ext_nt {
            Some(n) => n.wf(),
            None => true,
        }
    }

    open spec fn readable(&self, bus: BusKind, addr: u16) -> bool {
        true
    }

    /// CPU writes reach only the RAM window and the eight registers (the
    /// bus masks the others away).
    open spec fn writable(&self, bus: BusKind, addr: u16) -> bool {
        bus is Cpu ==> (addr & 0xe000 == 0x6000 || mmc3_register(addr))
    }

    closed spec fn accepts(&self, input: MapperInput) -> bool {
        true
    }

    open spec fn fetchable(&self, address: u16) -> bool {
        true
    }

    open spec fn spec_peek(&self, bus: BusKind, addr: u16) -> u8 {
        match bus {
            BusKind::Cpu => if addr & 0xe000 == 0x6000 {
                match mmc3_ram_state(self.variant(), self.ram_enabled_now(), self.ram_reg_now(), addr) {
                    PrgRamState::ReadWrite | PrgRamState::ReadOnly => banked(
                        self.ram(),
                        0,
                        if self.variant() is Mmc6 { 0x400 } else { 0x2000 },
                        addr,
                    ),
                    PrgRamState::Zero => 0,
                    PrgRamState::OpenBus => addr as u8,
                }
            } else {
                banked(
                    self.prg(),
                    mmc3_prg_bank(self.bank_data(), self.bank_select(), self.last_prg(), addr) as usize,
                    0x2000,
                    addr,
                )
            },
            BusKind::Ppu => if addr & 0x2000 != 0 {
                match self.ext_nt_now() {
                    Some(n) => n@[(addr as int) % 0x800],
                    None => 0,
                }
            } else {
                match self.chr_ram_now() {
                    Some(r) => banked(r@, 0, 0x2000, addr),
                    None => {
                        let (bank, size) = mmc3_chr_map(self.bank_data(), self.bank_select(), addr);
                        banked(self.chr(), bank as usize, size as usize, addr)
                    },
                }
            },
        }
    }

    closed spec fn spec_nametable(&self, address: u16) -> Nametable {
        self.mirroring.mirroring.spec_ppu_fetch(address)
    }

    fn register(&self, cpu: &mut AddressBus)
        ensures
            final(cpu).reads() == old(cpu).reads().push(
                (MappingFn::AndEqualsAndMask(AndEqualsAndMask(0xe000, 0x6000, 0x7fff)), DeviceKind::Mapper),
            ).push((MappingFn::AndAndMask(AndAndMask(0x8000, 0xffff)), DeviceKind::Mapper)),
            final(cpu).writes() == old(cpu).writes().push(
                (MappingFn::AndEqualsAndMask(AndEqualsAndMask(0xe000, 0x6000, 0x7fff)), DeviceKind::Mapper),
            ).push((MappingFn::AndAndMask(AndAndMask(0x8000, 0xe001)), DeviceKind::Mapper)),
    {
        cpu.register_read(DeviceKind::Mapper, AndEqualsAndMask(0xe000, 0x6000, 0x7fff).into());
        cpu.register_write(DeviceKind::Mapper, AndEqualsAndMask(0xe000, 0x6000, 0x7fff).into());
        cpu.register_read(DeviceKind::Mapper, AndAndMask(0x8000, 0xffff).into());
        cpu.register_write(DeviceKind::Mapper, AndAndMask(0x8000, 0xe001).into());
    }

    fn peek(&self, bus: BusKind, addr: u16) -> (r: u8) {
        match bus {
            BusKind::Cpu => self.read_cpu(addr),
            BusKind::Ppu => self.read_ppu(addr),
        }
    }

    fn write(&mut self, bus: BusKind, addr: u16, value: u8)
        ensures
            old(self).wrote(&*final(self), bus, addr, value),
            bus is Cpu ==> final(self).written_from(&*old(self), addr, value),
            bus is Ppu ==> final(self).ppu_written_from(&*old(self), addr, value),
            final(self).variant() == old(self).variant(),
    {
        match bus {
            BusKind::Cpu => self.write_cpu(addr, value),
            BusKind::Ppu => self.write_ppu(addr, value),
        }
    }

    /// Counts the CPU cycles A12 has been low (the count saturates, and
    /// only its exceeding three matters).
    fn tick(&mut self)
        ensures
            old(self).ticked_to(&*final(self)),
            final(self).same_but_low_cycles(&*old(self)),
            final(self).variant() == old(self).variant(),
            final(self).a12().1 == if old(self).a12().0 {
                0
            } else if old(self).a12().1 < u64::MAX {
                (old(self).a12().1 + 1) as u64
            } else {
                old(self).a12().1
            },
    {
        if self.irq_a12 {
            self.irq_a12_low_cycles = 0;
        } else {
            self.irq_a12_low_cycles = self.irq_a12_low_cycles.saturating_add(1);
        }
    }

    fn get_irq(&self) -> (r: bool)
        ensures
            self.irq_is(r),
            r == self.irq_line().0,
    {
        self.irq
    }

    fn peek_ppu_fetch(&self, address: u16, _kind: PpuFetchKind) -> (r: Nametable) {
        self.mirroring.ppu_fetch(address)
    }

    /// Every PPU fetch is watched for the A12 edge that clocks the counter.
    fn ppu_fetch(&mut self, address: u16, kind: PpuFetchKind) -> (r: Nametable)
        ensures
            r == old(self).spec_nametable(address),
            *final(self) == old(self).fetched(address),
            final(self).variant() == old(self).variant(),
            forall|b: BusKind, x: u16| #[trigger] final(self).spec_peek(b, x) == old(self).spec_peek(b, x),
            forall|b: BusKind, x: u16| #[trigger] final(self).readable(b, x) == old(self).readable(b, x),
            forall|x: u16| #[trigger] final(self).spec_nametable(x) == old(self).spec_nametable(x),
    {
        self.irq_addr(address);
        proof {
            let f = old(self).fetched(address);
            assert forall|b: BusKind, x: u16| #[trigger] f.spec_peek(b, x) == old(self).spec_peek(b, x) by {
                let s = Mmc3 {
                    irq_a12_low_cycles: if address & 0x1000 != 0 { 0 } else { old(self).irq_a12_low_cycles },
                    irq_a12: address & 0x1000 != 0,
                    ..*old(self)
                };
                assert(s.spec_peek(b, x) == old(self).spec_peek(b, x));
                assert(s.clocked().spec_peek(b, x) == s.spec_peek(b, x));
            }
            assert forall|x: u16| #[trigger] f.spec_nametable(x) == old(self).spec_nametable(x) by {
                let s = Mmc3 {
                    irq_a12_low_cycles: if address & 0x1000 != 0 { 0 } else { old(self).irq_a12_low_cycles },
                    irq_a12: address & 0x1000 != 0,
                    ..*old(self)
                };
                assert(s.spec_nametable(x) == old(self).spec_nametable(x));
                assert(s.clocked().spec_nametable(x) == s.spec_nametable(x));
            }
        }
        self.peek_ppu_fetch(address, kind)
    }

    /// Battery-backed boards save their PRG RAM.
    fn save_wram(&self) -> (r: Option<SaveWram>)
        ensures
            self.wram_is(r),
            self.battery() ==> (r matches Some(w) && w@ == self.ram()),
            !self.battery() ==> r is None,
    {
        if self.cartridge.battery {
            self.prg_ram.save_wram()
        } else {
            None
        }
    }
}

impl Mmc3 {
    /// What a write does to the board.
    pub open spec fn wrote(&self, new: &Mmc3, bus: BusKind, addr: u16, value: u8) -> bool {
        &&& bus is Cpu ==> new.written_from(self, addr, value)
        &&& bus is Ppu ==> new.ppu_written_from(self, addr, value)
        &&& new.variant() == self.variant()
    }

    /// What a cycle does to the board.
    pub open spec fn ticked_to(&self, new: &Mmc3) -> bool {
        &&& new.same_but_low_cycles(self)
        &&& new.variant() == self.variant()
        &&& new.a12().1 == if self.a12().0 {
                    0
                } else if self.a12().1 < u64::MAX {
                    (self.a12().1 + 1) as u64
                } else {
                    self.a12().1
                }
    }

    /// The board's IRQ line.
    pub open spec fn irq_is(&self, r: bool) -> bool {
        &&& r == self.irq_line().0
    }

    /// The battery-backed RAM the board hands out.
    pub open spec fn wram_is(&self, r: Option<SaveWram>) -> bool {
        &&& self.battery() ==> (r matches Some(w) && w@ == self.ram())
        &&& !self.battery() ==> r is None
    }
}

/// The CHR layout: without inversion $0000-$07FF shows R0's 2 KiB bank,
/// $0800-$0FFF R1's, and $1000-$1FFF the 1 KiB banks of R2-R5 in order;
/// bit 7 of the bank select only exchanges the two pattern-table halves,
/// so R0 and R1 move to $1000 and $1800.
pub proof fn lemma_chr_layout(bank_data: Seq<u8>, select: u8, addr: u16)
    ensures
        mmc3_chr_map(bank_data, select | 0x80, addr ^ 0x1000) == mmc3_chr_map(bank_data, select & 0x7f, addr),
        select & 0x80 == 0 && addr % 0x2000 < 0x800 ==> mmc3_chr_map(bank_data, select, addr) == (
            (bank_data[0] / 2) as int,
            0x800int,
        ),
        select & 0x80 == 0 && 0x800 <= addr % 0x2000 < 0x1000 ==> mmc3_chr_map(bank_data, select, addr) == (
            (bank_data[1] / 2) as int,
            0x800int,
        ),
        select & 0x80 == 0 && 0x1000 <= addr % 0x2000 ==> mmc3_chr_map(bank_data, select, addr) == (
            bank_data[2 + (addr % 0x1000) / 0x400] as int,
            0x400int,
        ),
{
    let a2 = addr ^ 0x1000u16;
    assert((select | 0x80) & 0x80 != 0 && (select & 0x7f) & 0x80 == 0) by (bit_vector);
    assert((a2 / 0x400) % 8 == ((addr / 0x400) % 8 + 4) % 8) by (bit_vector)
        requires
            a2 == addr ^ 0x1000u16,
    ;
    assert(((addr / 0x400) % 8 < 2) == (addr % 0x2000 < 0x800) && ((addr / 0x400) % 8 < 4) == (addr % 0x2000
        < 0x1000) && ((addr / 0x400) % 8 >= 4 ==> (addr / 0x400) % 8 - 2 == 2 + (addr % 0x1000) / 0x400))
        by (bit_vector);
}

} // verus!

verus! {

/// The board after `n` clocks of its scanline counter.
pub open spec fn counter_clocks(s: Mmc3, n: nat) -> Mmc3
    decreases n,
{
    if n == 0 {
        s
    } else {
        counter_clocks(s.clocked(), (n - 1) as nat)
    }
}

proof fn lemma_countdown(t: Mmc3, j: nat)
    requires
        t.irq_counter().1 > 0,
        !t.irq_counter().2,
        !t.irq_counter().3,
        t.irq_line() == (false, true),
        j <= t.irq_counter().1,
    ensures
        j < t.irq_counter().1 ==> !counter_clocks(t, j).irq_line().0,
        j == t.irq_counter().1 ==> counter_clocks(t, j).irq_line().0,
    decreases j,
{
    if j > 0 {
        let u = t.clocked();
        if t.irq_counter().1 == 1 {
            assert(counter_clocks(u, 0) == u);
        } else {
            lemma_countdown(u, (j - 1) as nat);
        }
    }
}

/// With its IRQ enabled, a counter whose reload was forced (a $C001 write)
/// with latch `n` above zero raises the IRQ on its (n+1)-th clock and not
/// before: one clock reloads it, `n` more count it down to zero.
pub proof fn lemma_irq_after_reload(s: Mmc3, n: nat)
    requires
        s.irq_line() == (false, true),
        s.irq_counter().0 == n,
        n > 0,
        s.irq_counter().3,
    ensures
        forall|k: nat| k <= n ==> !(#[trigger] counter_clocks(s, k)).irq_line().0,
        counter_clocks(s, n + 1).irq_line().0,
{
    let t = s.clocked();
    assert forall|k: nat| k <= n implies !(#[trigger] counter_clocks(s, k)).irq_line().0 by {
        if k > 0 {
            lemma_countdown(t, (k - 1) as nat);
        }
    }
    lemma_countdown(t, n);
    assert(counter_clocks(s, n + 1) == counter_clocks(t, n));
}

} // verus!
