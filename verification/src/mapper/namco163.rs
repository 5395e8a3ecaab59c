//! Namco 163 (iNES 19): four 8 KiB PRG banks (the last fixed), twelve
//! 1 KiB CHR/nametable banks that can select the console's nametable RAM,
//! a 15-bit up-counting IRQ, write-protected PRG RAM, and a wavetable
//! sound chip with up to eight channels in 128 bytes of internal RAM.
use vstd::prelude::*;

use crate::bits::{lemma_u16, lemma_u8};
use crate::bus::{AddressBus, AndAndMask, AndEqualsAndMask, BusKind, DeviceKind, MappingFn, RangeAndMask};
use crate::cartridge::INes;
use crate::mapper::{MapperInput, banked, Mapper, Nametable, SaveWram};
use crate::memory::{lemma_bank_sizes, FixedMemoryBlock, Memory};
use crate::ppu::PpuFetchKind;

verus! {

/// Register `i` of channel `c`: each channel's eight registers sit at
/// $40 + 8c in the sound RAM.
pub open spec fn wave_reg(mem: Seq<u8>, c: int, i: int) -> u8 {
    mem[c * 8 + 0x40 + i]
}

/// The 18-bit phase increment of channel `c`.
pub open spec fn wave_frequency(mem: Seq<u8>, c: int) -> int {
    wave_reg(mem, c, 0) as int + wave_reg(mem, c, 2) as int * 0x100 + (wave_reg(mem, c, 4) as int
        % 4) * 0x10000
}

/// The 24-bit phase of channel `c`.
pub open spec fn wave_phase(mem: Seq<u8>, c: int) -> int {
    wave_reg(mem, c, 1) as int + wave_reg(mem, c, 3) as int * 0x100 + wave_reg(mem, c, 5) as int
        * 0x10000
}

/// The waveform length in 4-bit samples: 256 minus the top six bits of
/// register 4.
pub open spec fn wave_length(mem: Seq<u8>, c: int) -> int {
    256 - (wave_reg(mem, c, 4) as int / 4) * 4
}

/// The sound RAM with channel `c`'s phase advanced by its frequency,
/// wrapping at the waveform length.
pub open spec fn wave_advanced(mem: Seq<u8>, c: int) -> Seq<u8> {
    let p = (wave_phase(mem, c) + wave_frequency(mem, c)) % (wave_length(mem, c) * 0x10000);
    mem.update(c * 8 + 0x41, (p % 0x100) as u8).update(c * 8 + 0x43, ((p / 0x100) % 0x100) as u8).update(
        c * 8 + 0x45,
        ((p / 0x10000) % 0x100) as u8,
    )
}

/// The level channel `c` outputs after advancing: the 4-bit sample at its
/// phase (plus the waveform offset) in the sound RAM, centred on 8 and
/// scaled by the volume, biased by 120 to stay positive.
pub open spec fn wave_output(mem: Seq<u8>, c: int) -> int {
    let m = wave_advanced(mem, c);
    let idx = (wave_phase(m, c) / 0x10000 + (wave_reg(m, c, 6) as int) % 16) % 256;
    let byte = m[idx / 2] as int;
    let sample = if idx % 2 == 0 { byte % 16 } else { byte / 16 };
    (sample - 8) * (wave_reg(m, c, 7) as int % 16) + 120
}

/// The Namco 163 sound chip.
#[derive(Debug, Clone)]
pub struct Sound {
    mem: [u8; 128],
    addr: u8,
    increment: bool,
    enabled: bool,
    counter: u8,
    channel: u8,
    output: i16,
}

impl Sound {
    pub closed spec fn wf(&self) -> bool {
        &&& self.addr < 128
        &&& self.counter < 15
        &&& self.channel <= 7
        &&& 0 <= self.output <= 225
    }

    pub closed spec fn mem(&self) -> Seq<u8> {
        self.mem@
    }

    /// The RAM address port and whether it auto-increments.
    pub closed spec fn port(&self) -> (u8, bool) {
        (self.addr, self.increment)
    }

    pub closed spec fn enabled(&self) -> bool {
        self.enabled
    }

    /// Cycle counter and the channel serviced next.
    pub closed spec fn position(&self) -> (u8, u8) {
        (self.counter, self.channel)
    }

    pub closed spec fn level(&self) -> i16 {
        self.output
    }

    /// The port after an access: an auto-incrementing port moves to the
    /// next byte, wrapping within the 128 bytes.
    pub open spec fn port_after(&self) -> u8 {
        let (addr, increment) = self.port();
        if increment { ((addr + 1) % 128) as u8 } else { addr }
    }

    /// One CPU cycle: every 15th cycle an enabled chip services one
    /// channel, counting down from 7 through the enabled channels (the top
    /// ones, their number set by register $7F).
    pub closed spec fn ticks_to(&self, next: &Sound) -> bool {
        if !self.enabled {
            *next == *self
        } else if self.counter + 1 < 15 {
            *next == Sound { counter: (self.counter + 1) as u8, ..*self }
        } else {
            let enabled_channels = (self.mem@[0x7f] as int / 16) % 8 + 1;
            let ch: int = if 8 - self.channel > enabled_channels { 7 } else { self.channel as int };
            &&& *next == Sound {
                mem: next.mem,
                counter: 0,
                output: wave_output(self.mem@, ch) as i16,
                channel: if ch == 0 { 7 } else { (ch - 1) as u8 },
                ..*self
            }
            &&& next.mem@ == wave_advanced(self.mem@, ch)
        }
    }

    /// The chip after a port read.
    pub closed spec fn accessed(self) -> Sound {
        Sound { addr: self.port_after(), ..self }
    }

    /// The chip after a $E000 write.
    pub closed spec fn enabled_by(self, value: u8) -> Sound {
        Sound { enabled: value & 0x40 == 0, ..self }
    }

    pub fn new() -> (r: Self)
        ensures
            r.wf(),
            r.mem() == Seq::new(128, |i: int| 0u8),
            r.port() == (0u8, false),
            !r.enabled(),
            r.position() == (0u8, 7u8),
            r.level() == 0,
    {
        let r = Self {
            mem: [0; 128],
            addr: 0,
            increment: false,
            enabled: false,
            counter: 0,
            channel: 7,
            output: 0,
        };
        assert(r.mem@ =~= Seq::new(128, |i: int| 0u8));
        r
    }

    /// Reads the byte at the port.
    pub fn read(&mut self) -> (r: u8)
        requires
            old(self).wf(),
        ensures
            final(self).wf(),
            r == old(self).mem()[old(self).port().0 as int],
            *final(self) == old(self).accessed(),
    {
        let value = self.mem[self.addr as usize];
        if self.increment {
            proof {
                lemma_u8((self.addr + 1) as u8);
            }
            self.addr = self.addr.wrapping_add(1) & 0x7f;
        }
        value
    }

    /// Writes the byte at the port.
    pub fn write(&mut self, value: u8)
        requires
            old(self).wf(),
        ensures
            final(self).wf(),
            final(self).mem() == old(self).mem().update(old(self).port().0 as int, value),
            final(self).port() == (old(self).port_after(), old(self).port().1),
            final(self).enabled() == old(self).enabled(),
            final(self).position() == old(self).position(),
            final(self).level() == old(self).level(),
    {
        self.mem[self.addr as usize] = value;
        if self.increment {
            proof {
                lemma_u8((self.addr + 1) as u8);
            }
            self.addr = self.addr.wrapping_add(1) & 0x7f;
        }
    }

    /// Bit 6 clear enables the chip.
    pub fn enable(&mut self, value: u8)
        requires
            old(self).wf(),
        ensures
            final(self).wf(),
            *final(self) == old(self).enabled_by(value),
    {
        self.enabled = value & 0x40 == 0;
    }

    /// Bits 0-6 set the port address, bit 7 auto-increment.
    pub fn address_port(&mut self, value: u8)
        requires
            old(self).wf(),
        ensures
            final(self).wf(),
            final(self).port() == (value % 128, value >= 0x80),
            final(self).mem() == old(self).mem(),
            final(self).enabled() == old(self).enabled(),
            final(self).position() == old(self).position(),
            final(self).level() == old(self).level(),
    {
        proof {
            lemma_u8(value);
        }
        self.addr = value & 0x7f;
        self.increment = value & 0x80 != 0;
    }

    fn tick_channel(&mut self, c: usize) -> (r: i16)
        requires
            c <= 7,
        ensures
            final(self).mem@ == wave_advanced(old(self).mem@, c as int),
            r == wave_output(old(self).mem@, c as int),
            0 <= r <= 225,
            *final(self) == (Sound { mem: final(self).mem, ..*old(self) }),
    {
        let off = c * 8 + 0x40;
        let freq = self.mem[off] as u32 + self.mem[off + 2] as u32 * 0x100 + (self.mem[off + 4] % 4) as u32
            * 0x10000;
        let phase = self.mem[off + 1] as u32 + self.mem[off + 3] as u32 * 0x100 + self.mem[off + 5] as u32
            * 0x10000;
        let length = 256 - (self.mem[off + 4] / 4) as u32 * 4;
        let phase = (phase + freq) % (length * 0x10000);
        self.mem[off + 1] = (phase % 0x100) as u8;
        self.mem[off + 3] = ((phase / 0x100) % 0x100) as u8;
        self.mem[off + 5] = ((phase / 0x10000) % 0x100) as u8;
        proof {
            let m = self.mem@;
            assert(wave_phase(m, c as int) == phase as int);
        }
        let sample_idx = (phase / 0x10000 + (self.mem[off + 6] % 16) as u32) % 256;
        let byte = self.mem[(sample_idx / 2) as usize];
        let sample: i16 = if sample_idx % 2 == 0 {
            (byte % 16) as i16
        } else {
            (byte / 16) as i16
        };
        let volume = (self.mem[off + 7] % 16) as i16;
        proof {
            assert(0 <= (sample - 8) * volume + 120 <= 225) by (nonlinear_arith)
                requires
                    0 <= sample < 16,
                    0 <= volume < 16,
            ;
        }
        (sample - 8) * volume + 120
    }

    pub fn tick(&mut self)
        requires
            old(self).wf(),
        ensures
            final(self).wf(),
            old(self).ticks_to(&*final(self)),
    {
        if !self.enabled {
            return;
        }
        self.counter = self.counter + 1;
        if self.counter < 15 {
            return;
        }
        self.counter = 0;
        proof {
            lemma_u8(self.mem[0x7f]);
        }
        let enabled_channels = ((self.mem[0x7f] >> 4) & 0x7) + 1;
        if 8 - self.channel > enabled_channels {
            self.channel = 7;
        }
        let ch = self.channel;
        self.output = self.tick_channel(ch as usize);
        if ch == 0 {
            self.channel = 7;
        } else {
            self.channel = ch - 1;
        }
    }

    /// The level scaled to the sample range.
    pub fn output(&self) -> (r: i16)
        requires
            self.wf(),
        ensures
            r == self.level() * 128,
    {
        self.output * 128
    }
}

pub struct Namco163 {
    cartridge: INes,
    prg_ram: Option<FixedMemoryBlock<8>>,
    sound: Sound,
    irq_enabled: bool,
    irq_counter: u16,
    irq: bool,
    chr_bank_regs: [u8; 12],
    prg_bank_regs: [u8; 4],
    high_chr_ram: bool,
    low_chr_ram: bool,
    write_protect: [bool; 4],
}

/// The CHR bank register serving a pattern or nametable address; $3000-
/// $3FFF mirror the nametables at $2000.
pub open spec fn n163_chr_reg(addr: u16) -> int {
    let a = if addr & 0x3000 == 0x3000 { addr & 0x2fff } else { addr };
    ((a as int) / 0x400) % 16
}

impl Namco163 {
    pub closed spec fn irq_counter_now(&self) -> u16 {
        self.irq_counter
    }

    pub closed spec fn prg_ram_now(&self) -> Option<FixedMemoryBlock<8>> {
        self.prg_ram
    }

    pub closed spec fn prg(&self) -> Seq<u8> {
        self.cartridge.prg_rom@
    }

    pub closed spec fn chr(&self) -> Seq<u8> {
        self.cartridge.chr_rom@
    }

    pub closed spec fn ram(&self) -> Option<Seq<u8>> {
        match self.prg_ram {
            Some(r) => Some(r@),
            None => None,
        }
    }

    pub closed spec fn sound(&self) -> Sound {
        self.sound
    }

    /// IRQ enable, counter and line.
    pub closed spec fn irq_state(&self) -> (bool, u16, bool) {
        (self.irq_enabled, self.irq_counter, self.irq)
    }

    pub closed spec fn chr_regs(&self) -> Seq<u8> {
        self.chr_bank_regs@
    }

    pub closed spec fn prg_regs(&self) -> Seq<u8> {
        self.prg_bank_regs@
    }

    /// Whether CHR registers $E0 and up select nametable RAM in the low and
    /// high pattern tables.
    pub closed spec fn chr_ram_select(&self) -> (bool, bool) {
        (self.low_chr_ram, self.high_chr_ram)
    }

    pub closed spec fn write_protect(&self) -> Seq<bool> {
        self.write_protect@
    }

    pub closed spec fn battery(&self) -> bool {
        self.cartridge.battery
    }

    /// A CPU write: $4800 the sound RAM, $5000/$5800 the IRQ counter,
    /// $8000-$DFFF the CHR registers, $E000-$F7FF the PRG registers (with
    /// sound enable and CHR RAM selection), $F800 the sound port and RAM
    /// protection, $6000-$7FFF the RAM.
    pub closed spec fn written_from(&self, old: &Namco163, addr: u16, value: u8) -> bool {
        if 0x4800 <= addr <= 0x4fff {
            &&& *self == Namco163 { sound: self.sound, ..*old }
            &&& self.sound.mem() == old.sound.mem().update(old.sound.port().0 as int, value)
            &&& self.sound.port() == (old.sound.port_after(), old.sound.port().1)
            &&& self.sound.enabled() == old.sound.enabled()
            &&& self.sound.position() == old.sound.position()
            &&& self.sound.level() == old.sound.level()
        } else if 0x5000 <= addr <= 0x57ff {
            *self == Namco163 { irq_counter: ((old.irq_counter & 0xff00) | value as u16) as u16, irq: false, ..*old }
        } else if 0x5800 <= addr <= 0x5fff {
            *self == Namco163 {
                irq_counter: (((old.irq_counter & 0x00ff) | ((value as u16) << 8u16)) & 0x7fff) as u16,
                irq_enabled: value & 0x80 != 0,
                irq: false,
                ..*old
            }
        } else if 0x8000 <= addr <= 0xdfff {
            &&& *self == Namco163 { chr_bank_regs: self.chr_bank_regs, ..*old }
            &&& self.chr_bank_regs@ == old.chr_bank_regs@.update((addr - 0x8000) / 0x800, value)
        } else if 0xe000 <= addr <= 0xe7ff {
            &&& *self == Namco163 {
                prg_bank_regs: self.prg_bank_regs,
                sound: old.sound.enabled_by(value),
                ..*old
            }
            &&& self.prg_bank_regs@ == old.prg_bank_regs@.update(0, value & 0x3f)
        } else if 0xe800 <= addr <= 0xefff {
            &&& *self == Namco163 {
                prg_bank_regs: self.prg_bank_regs,
                low_chr_ram: value & 0x40 == 0,
                high_chr_ram: value & 0x80 == 0,
                ..*old
            }
            &&& self.prg_bank_regs@ == old.prg_bank_regs@.update(1, value & 0x3f)
        } else if 0xf000 <= addr <= 0xf7ff {
            &&& *self == Namco163 { prg_bank_regs: self.prg_bank_regs, ..*old }
            &&& self.prg_bank_regs@ == old.prg_bank_regs@.update(2, value & 0x3f)
        } else if addr >= 0xf800 {
            &&& *self == Namco163 { sound: self.sound, write_protect: self.write_protect, ..*old }
            &&& self.sound.port() == (value % 128, value >= 0x80)
            &&& self.sound.mem() == old.sound.mem()
            &&& self.sound.enabled() == old.sound.enabled()
            &&& self.sound.position() == old.sound.position()
            &&& self.sound.level() == old.sound.level()
            &&& self.write_protect@ == if value & 0xf0 != 0x40 {
                seq![true, true, true, true]
            } else {
                seq![value & 0x01 != 0, value & 0x02 != 0, value & 0x04 != 0, value & 0x08 != 0]
            }
        } else if 0x6000 <= addr <= 0x7fff {
            &&& *self == Namco163 { prg_ram: self.prg_ram, ..*old }
            &&& self.ram() == match old.prg_ram {
                Some(r) => if !old.write_protect@[(addr - 0x6000) / 0x800] {
                    Some(r@.update((addr as int) % 0x2000, value))
                } else {
                    Some(r@)
                },
                None => None,
            }
        } else {
            *self == *old
        }
    }

    /// The board as it comes up at power-on from this image.
    pub open spec fn powered_on(&self, cartridge: INes) -> bool {
        &&& self.prg() == cartridge.prg_rom@
        &&& self.chr() == cartridge.chr_rom@
        &&& (cartridge.prg_ram_bytes > 0) == (self.ram() is Some)
        &&& self.ram() matches Some(ram) ==> ram.len() == 8 * 1024 && forall|i: int|
                0 <= i < 8 * 1024 ==> #[trigger] ram[i] == match cartridge.wram {
                    Some(w) => if i < w@.len() { w@[i] } else { 0u8 },
                    None => 0u8,
                }
        &&& self.irq_state() == (false, 0u16, false)
        &&& self.chr_regs() == Seq::new(12, |i: int| 0u8)
        &&& self.prg_regs() == seq![0u8, 0, 0, ((cartridge.prg_rom@.len() / 0x2000) - 1) as u8]
        &&& self.chr_ram_select() == (false, false)
        &&& self.write_protect() == seq![true, true, true, true]
        &&& self.sound().mem() == Seq::new(128, |i: int| 0u8)
        &&& !self.sound().enabled()
        &&& self.battery() == cartridge.battery
        &&& cartridge.chr_rom@.len() > 0 ==> self.wf()
    }

    /// PRG RAM when the header asks for it, loaded from the save and
    /// write-protected; the last PRG register holds the last bank.
    pub fn new(cartridge: INes) -> (r: Self)
        requires
            cartridge.prg_rom@.len() >= 0x2000,
        ensures
            r.powered_on(cartridge),
            r.prg() == cartridge.prg_rom@,
            r.chr() == cartridge.chr_rom@,
            (cartridge.prg_ram_bytes > 0) == (r.ram() is Some),
            r.ram() matches Some(ram) ==> ram.len() == 8 * 1024 && forall|i: int|
                0 <= i < 8 * 1024 ==> #[trigger] ram[i] == match cartridge.wram {
                    Some(w) => if i < w@.len() { w@[i] } else { 0u8 },
                    None => 0u8,
                },
            r.irq_state() == (false, 0u16, false),
            r.chr_regs() == Seq::new(12, |i: int| 0u8),
            r.prg_regs() == seq![0u8, 0, 0, ((cartridge.prg_rom@.len() / 0x2000) - 1) as u8],
            r.chr_ram_select() == (false, false),
            r.write_protect() == seq![true, true, true, true],
            r.sound().mem() == Seq::new(128, |i: int| 0u8),
            !r.sound().enabled(),
            r.battery() == cartridge.battery,
            cartridge.chr_rom@.len() > 0 ==> r.wf(),
    {
        let mut cartridge = cartridge;
        let prg_ram = if cartridge.prg_ram_bytes > 0 {
            let mut ram = FixedMemoryBlock::<8>::new();
            if let Some(wram) = cartridge.wram.take() {
                ram.restore_wram(wram);
            }
            Some(ram)
        } else {
            None
        };
        let fixed_bank = ((cartridge.prg_rom.len() / 0x2000) - 1) as u8;
        let r = Self {
            cartridge,
            prg_ram,
            sound: Sound::new(),
            irq_enabled: false,
            irq_counter: 0,
            irq: false,
            chr_bank_regs: [0; 12],
            prg_bank_regs: [0, 0, 0, fixed_bank],
            low_chr_ram: false,
            high_chr_ram: false,
            write_protect: [true, true, true, true],
        };
        assert(r.chr_bank_regs@ =~= Seq::new(12, |i: int| 0u8));
        assert(r.prg_bank_regs@ =~= seq![0u8, 0, 0, fixed_bank]);
        assert(r.write_protect@ =~= seq![true, true, true, true]);
        r
    }

    fn peek_cpu(&self, addr: u16) -> (r: u8)
        requires
            self.wf(),
        ensures
            r == self.spec_peek(BusKind::Cpu, addr),
    {
        proof {
            lemma_bank_sizes();
            lemma_u16(addr);
        }
        if 0x5000 <= addr && addr <= 0x57ff {
            (self.irq_counter & 0xff) as u8
        } else if 0x5800 <= addr && addr <= 0x5fff {
            (self.irq_counter >> 8) as u8
        } else if 0x6000 <= addr && addr <= 0x7fff {
            match &self.prg_ram {
                Some(ram) => ram.read(addr),
                None => 0,
            }
        } else if addr >= 0x8000 {
            let bank_idx = ((addr >> 13) & 3) as usize;
            let bank = self.prg_bank_regs[bank_idx] as usize;
            self.cartridge.prg_rom.read_mapped(bank, 8 * 1024, addr)
        } else {
            0
        }
    }

    fn read_ppu(&self, addr: u16) -> (r: u8)
        requires
            self.wf(),
        ensures
            r == self.spec_peek(BusKind::Ppu, addr),
    {
        proof {
            lemma_bank_sizes();
            lemma_u16(addr);
            lemma_u16(addr & 0x2fff);
        }
        let a = if addr & 0x3000 == 0x3000 {
            addr & 0x2fff
        } else {
            addr
        };
        let bank_idx = ((a >> 10) & 0xf) as usize;
        let bank = self.chr_bank_regs[bank_idx] as usize;
        self.cartridge.chr_rom.read_mapped(bank, 1024, a)
    }

    fn write_cpu(&mut self, addr: u16, value: u8)
        requires
            old(self).wf(),
        ensures
            final(self).wf(),
            final(self).written_from(&*old(self), addr, value),
    {
        if 0x4800 <= addr && addr <= 0x4fff {
            self.sound.write(value);
        } else if 0x5000 <= addr && addr <= 0x57ff {
            self.irq_counter = (self.irq_counter & 0xff00) | value as u16;
            self.irq = false;
        } else if 0x5800 <= addr && addr <= 0x5fff {
            self.irq_counter = (self.irq_counter & 0x00ff) | ((value as u16) << 8);
            self.irq_counter = self.irq_counter & 0x7fff;
            self.irq_enabled = value & 0x80 != 0;
            self.irq = false;
        } else if 0x8000 <= addr && addr <= 0xdfff {
            let reg = (addr - 0x8000) / 0x800;
            self.chr_bank_regs[reg as usize] = value;
        } else if 0xe000 <= addr && addr <= 0xe7ff {
            self.prg_bank_regs[0] = value & 0x3f;
            self.sound.enable(value);
        } else if 0xe800 <= addr && addr <= 0xefff {
            self.prg_bank_regs[1] = value & 0x3f;
            self.low_chr_ram = value & 0x40 == 0;
            self.high_chr_ram = value & 0x80 == 0;
        } else if 0xf000 <= addr && addr <= 0xf7ff {
            self.prg_bank_regs[2] = value & 0x3f;
        } else if addr >= 0xf800 {
            self.sound.address_port(value);
            if value & 0xf0 != 0x40 {
                let protect_all = [true, true, true, true];
                assert(protect_all@ =~= seq![true, true, true, true]);
                self.write_protect = protect_all;
            } else {
                self.write_protect[0] = value & 0x01 != 0;
                self.write_protect[1] = value & 0x02 != 0;
                self.write_protect[2] = value & 0x04 != 0;
                self.write_protect[3] = value & 0x08 != 0;
                assert(self.write_protect@ =~= seq![
                    value & 0x01 != 0,
                    value & 0x02 != 0,
                    value & 0x04 != 0,
                    value & 0x08 != 0,
                ]);
            }
        } else if 0x6000 <= addr && addr <= 0x7fff {
            let range = (addr - 0x6000) / 0x800;
            let write_protect = self.write_protect[range as usize];
            if !write_protect {
                if let Some(ram) = &mut self.prg_ram {
                    ram.write(addr, value);
                }
            }
        }
    }
}

impl Mapper for Namco163 {
    closed spec fn wf(&self) -> bool {
        &&& self.prg().len() > 0
        &&& self.chr().len() > 0
        &&& self.sound.wf()
        &&& match self.prg_ram {
            Some(r) => r.wf(),
            None => true,
        }
    }

    open spec fn readable(&self, bus: BusKind, addr: u16) -> bool {
        true
    }

    open spec fn writable(&self, bus: BusKind, addr: u16) -> bool {
        true
    }

    /// Pattern addresses above the 14-bit PPU range have no bank register.
    closed spec fn accepts(&self, input: MapperInput) -> bool {
        true
    }

    open spec fn fetchable(&self, address: u16) -> bool {
        address & 0x2000 != 0 || address < 0x2000
    }

    open spec fn spec_peek(&self, bus: BusKind, addr: u16) -> u8 {
        match bus {
            BusKind::Cpu => if 0x5000 <= addr <= 0x57ff {
                (self.irq_counter_now() & 0xff) as u8
            } else if 0x5800 <= addr <= 0x5fff {
                (self.irq_counter_now() >> 8u16) as u8
            } else if 0x6000 <= addr <= 0x7fff {
                match self.prg_ram_now() {
                    Some(r) => r@[(addr as int) % 0x2000],
                    None => 0,
                }
            } else if addr >= 0x8000 {
                banked(self.prg(), self.prg_regs()[((addr as int) / 0x2000) % 4] as usize, 0x2000, addr)
            } else {
                0
            },
            BusKind::Ppu => {
                let a = if addr & 0x3000 == 0x3000 { addr & 0x2fff } else { addr };
                banked(self.chr(), self.chr_regs()[n163_chr_reg(addr)] as usize, 0x400, a)
            },
        }
    }

    /// A register of $E0 or more selects console nametable RAM (by its low
    /// bit) for nametables always, and for pattern tables when enabled.
    closed spec fn spec_nametable(&self, address: u16) -> Nametable {
        let (bank, ram) = if address & 0x2000 != 0 {
            ((address & 0x2c00) as int / 0x400, true)
        } else {
            let b = address as int / 0x400;
            (b, if b < 4 { self.low_chr_ram } else { self.high_chr_ram })
        };
        let reg = self.chr_bank_regs@[bank];
        if reg >= 0xe0 && ram {
            if reg & 1 == 0 {
                Nametable::InternalB
            } else {
                Nametable::InternalA
            }
        } else {
            Nametable::External
        }
    }

    fn register(&self, cpu: &mut AddressBus)
        ensures
            final(cpu).reads() == old(cpu).reads().push(
                (MappingFn::AndEqualsAndMask(AndEqualsAndMask(0xe000, 0x6000, 0x7fff)), DeviceKind::Mapper),
            ).push((MappingFn::AndAndMask(AndAndMask(0x8000, 0xffff)), DeviceKind::Mapper)).push(
                (MappingFn::RangeAndMask(RangeAndMask(0x4800, 0x6000, 0xffff)), DeviceKind::Mapper),
            ),
            final(cpu).writes() == old(cpu).writes().push(
                (MappingFn::AndEqualsAndMask(AndEqualsAndMask(0xe000, 0x6000, 0x7fff)), DeviceKind::Mapper),
            ).push((MappingFn::AndAndMask(AndAndMask(0x8000, 0xffff)), DeviceKind::Mapper)).push(
                (MappingFn::RangeAndMask(RangeAndMask(0x4800, 0x6000, 0xffff)), DeviceKind::Mapper),
            ),
    {
        cpu.register_read(DeviceKind::Mapper, AndEqualsAndMask(0xe000, 0x6000, 0x7fff).into());
        cpu.register_write(DeviceKind::Mapper, AndEqualsAndMask(0xe000, 0x6000, 0x7fff).into());
        cpu.register_read(DeviceKind::Mapper, AndAndMask(0x8000, 0xffff).into());
        cpu.register_write(DeviceKind::Mapper, AndAndMask(0x8000, 0xffff).into());
        cpu.register_read(DeviceKind::Mapper, RangeAndMask(0x4800, 0x6000, 0xffff).into());
        cpu.register_write(DeviceKind::Mapper, RangeAndMask(0x4800, 0x6000, 0xffff).into());
    }

    fn peek(&self, bus: BusKind, addr: u16) -> (r: u8) {
        match bus {
            BusKind::Cpu => self.peek_cpu(addr),
            BusKind::Ppu => self.read_ppu(addr),
        }
    }

    /// CPU reads of $4800-$4FFF read the sound RAM through the port.
    fn read(&mut self, bus: BusKind, addr: u16) -> (r: u8)
        ensures
            old(self).was_read(&*final(self), r, bus, addr),
            (bus is Cpu && 0x4800 <= addr <= 0x4fff) ==> {
                &&& r == old(self).sound().mem()[old(self).sound().port().0 as int]
                &&& *final(self) == old(self).sound_accessed()
            },
            !(bus is Cpu && 0x4800 <= addr <= 0x4fff) ==> r == old(self).spec_peek(bus, addr)
                && *final(self) == *old(self),
    {
        match bus {
            BusKind::Cpu => {
                if 0x4800 <= addr && addr <= 0x4fff {
                    self.sound.read()
                } else {
                    self.peek_cpu(addr)
                }
            },
            BusKind::Ppu => self.read_ppu(addr),
        }
    }

    fn write(&mut self, bus: BusKind, addr: u16, value: u8)
        ensures
            old(self).wrote(&*final(self), bus, addr, value),
            bus is Ppu ==> *final(self) == *old(self),
            bus is Cpu ==> final(self).written_from(&*old(self), addr, value),
    {
        match bus {
            BusKind::Cpu => self.write_cpu(addr, value),
            BusKind::Ppu => (),
        }
    }

    fn peek_ppu_fetch(&self, address: u16, _kind: PpuFetchKind) -> (r: Nametable) {
        proof {
            lemma_u16(address);
        }
        let (bank, chr_ram): (u16, bool) = if address & 0x2000 != 0 {
            ((address & 0x2c00) / 0x400, true)
        } else {
            let bank = address / 0x400;
            let chr_ram = if bank < 4 {
                self.low_chr_ram
            } else {
                self.high_chr_ram
            };
            (bank, chr_ram)
        };
        let reg = self.chr_bank_regs[bank as usize];
        if reg >= 0xe0 && chr_ram {
            if reg & 1 == 0 {
                Nametable::InternalB
            } else {
                Nametable::InternalA
            }
        } else {
            Nametable::External
        }
    }

    /// An enabled counter counts up each cycle and raises the IRQ (and
    /// restarts) on reaching $7FFF; the sound chip advances.
    fn tick(&mut self)
        ensures
            old(self).ticked_to(&*final(self)),
            final(self).irq_state() == if old(self).irq_state().0 && !old(self).irq_state().2 {
                if old(self).irq_state().1 < 0x7fff {
                    (true, (old(self).irq_state().1 + 1) as u16, false)
                } else {
                    (true, 0u16, true)
                }
            } else {
                old(self).irq_state()
            },
            old(self).sound().ticks_to(&final(self).sound()),
            final(self).same_but_clocked(&*old(self)),
    {
        if self.irq_enabled && !self.irq {
            if self.irq_counter < 0x7fff {
                self.irq_counter = self.irq_counter + 1;
            } else {
                self.irq_counter = 0;
                self.irq = true;
            }
        }
        self.sound.tick();
    }

    fn get_irq(&self) -> (r: bool)
        ensures
            self.irq_is(r),
            r == (self.irq_state().0 && self.irq_state().2),
    {
        self.irq_enabled && self.irq
    }

    /// Battery-backed boards with PRG RAM save it.
    fn save_wram(&self) -> (r: Option<SaveWram>)
        ensures
            self.wram_is(r),
            (self.battery() && self.ram() is Some) ==> (r matches Some(w) && w@ == self.ram().unwrap()),
            !(self.battery() && self.ram() is Some) ==> r is None,
    {
        if self.cartridge.battery {
            match &self.prg_ram {
                Some(r) => r.save_wram(),
                None => None,
            }
        } else {
            None
        }
    }

    fn get_sample(&self) -> (r: Option<i16>)
        ensures
            self.sample_is(r),
            r == Some((self.sound().level() * 128) as i16),
    {
        Some(self.sound.output())
    }
}

impl Namco163 {
    /// What a write does to the board.
    pub open spec fn wrote(&self, new: &Namco163, bus: BusKind, addr: u16, value: u8) -> bool {
        &&& bus is Ppu ==> *new == *self
        &&& bus is Cpu ==> new.written_from(self, addr, value)
    }

    /// What a read returns and does to the board.
    pub open spec fn was_read(&self, new: &Namco163, r: u8, bus: BusKind, addr: u16) -> bool {
        &&& (bus is Cpu && 0x4800 <= addr <= 0x4fff) ==> {
                    &&& r == self.sound().mem()[self.sound().port().0 as int]
                    &&& *new == self.sound_accessed()
                }
        &&& !(bus is Cpu && 0x4800 <= addr <= 0x4fff) ==> r == self.spec_peek(bus, addr)
                    && *new == *self
    }

    /// What a cycle does to the board.
    pub open spec fn ticked_to(&self, new: &Namco163) -> bool {
        &&& new.irq_state() == if self.irq_state().0 && !self.irq_state().2 {
                    if self.irq_state().1 < 0x7fff {
                        (true, (self.irq_state().1 + 1) as u16, false)
                    } else {
                        (true, 0u16, true)
                    }
                } else {
                    self.irq_state()
                }
        &&& self.sound().ticks_to(&new.sound())
        &&& new.same_but_clocked(self)
    }

    /// The board's IRQ line.
    pub open spec fn irq_is(&self, r: bool) -> bool {
        &&& r == (self.irq_state().0 && self.irq_state().2)
    }

    /// The board's audio sample.
    pub open spec fn sample_is(&self, r: Option<i16>) -> bool {
        &&& r == Some((self.sound().level() * 128) as i16)
    }

    /// The battery-backed RAM the board hands out.
    pub open spec fn wram_is(&self, r: Option<SaveWram>) -> bool {
        &&& (self.battery() && self.ram() is Some) ==> (r matches Some(w) && w@ == self.ram().unwrap())
        &&& !(self.battery() && self.ram() is Some) ==> r is None
    }
}

impl Namco163 {
    /// The board after a read through the sound RAM port.
    pub closed spec fn sound_accessed(self) -> Namco163 {
        Namco163 { sound: self.sound.accessed(), ..self }
    }

    /// Everything but the IRQ counter state and the sound chip agrees.
    pub closed spec fn same_but_clocked(&self, other: &Namco163) -> bool {
        *self == (Namco163 {
            irq_enabled: self.irq_enabled,
            irq_counter: self.irq_counter,
            irq: self.irq,
            sound: self.sound,
            ..*other
        })
    }
}

/// A port read moves the port address on by one (wrapping within the
/// 128 bytes) when auto-increment is on, and changes nothing else.
pub proof fn lemma_accessed(s: Sound)
    ensures
        s.accessed().port() == (s.port_after(), s.port().1),
        s.accessed().mem() == s.mem(),
        s.accessed().enabled() == s.enabled(),
        s.accessed().position() == s.position(),
        s.accessed().level() == s.level(),
        s.wf() ==> s.accessed().wf(),
{
}

} // verus!
