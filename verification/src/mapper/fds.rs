//! The Famicom Disk System: 32 KiB of PRG RAM, 8 KiB of CHR RAM, the BIOS,
//! a CPU-cycle timer IRQ, the disk drive (read and write one byte every
//! 152 cycles once the motor is up to speed), and the FDS sound.
use vstd::prelude::*;

use crate::bits::lemma_u8_pair;
use crate::bus::{AddressBus, AndAndMask, AndEqualsAndMask, BusKind, DeviceKind, MappingFn, RangeAndMask};
use crate::mapper::fds_sound::Sound;
use crate::mapper::{banked, banked_index, FdsInput, Mapper, MapperInput, Mirroring, Nametable, SimpleMirroring};
use crate::memory::{lemma_bank_sizes, Memory, MemoryBlock};
use crate::ppu::PpuFetchKind;

verus! {

#[derive(Debug, Copy, Clone, PartialEq, Eq, Structural)]
pub enum DiskMode {
    Read,
    Write,
}

/// Cycles between disk bytes.
pub const BYTE_CYCLES: u64 = 152;

/// Cycles the motor takes to reach the start of the disk.
pub const SPIN_UP_CYCLES: u64 = 50000;

/// Cycles a newly inserted side reads as ejected.
pub const SWAP_CYCLES: u64 = 2_000_000;

/// The CPU-cycle timer: counts down from a 16-bit reload value and raises
/// its IRQ on passing zero.
#[derive(Debug, Copy, Clone, PartialEq, Eq, Structural)]
pub struct FdsTimer {
    pub counter: u16,
    pub reload_low: u8,
    pub reload_high: u8,
    pub repeat: bool,
    pub enabled: bool,
    pub irq: bool,
}

impl FdsTimer {
    pub open spec fn reload(self) -> u16 {
        (self.reload_low as int + self.reload_high as int * 0x100) as u16
    }

    /// One cycle: at zero an enabled timer raises its IRQ and reloads,
    /// disabling itself unless it repeats; else it counts down.
    pub open spec fn ticked(self) -> FdsTimer {
        if !self.enabled {
            self
        } else if self.counter == 0 {
            FdsTimer { irq: true, counter: self.reload(), enabled: self.repeat, ..self }
        } else {
            FdsTimer { counter: (self.counter - 1) as u16, ..self }
        }
    }

    /// $4022: bit 0 repeat, bit 1 enable (only with disk I/O on); enabling
    /// loads the counter, disabling drops the IRQ.
    pub open spec fn controlled(self, value: u8, disk_io: bool) -> FdsTimer {
        let enabled = value & 0x2 != 0 && disk_io;
        FdsTimer {
            repeat: value & 0x1 != 0,
            enabled,
            irq: if enabled { self.irq } else { false },
            counter: if enabled { self.reload() } else { self.counter },
            ..self
        }
    }

    fn reload_value(&self) -> (r: u16)
        ensures
            r == self.reload(),
    {
        proof {
            lemma_u8_pair(self.reload_low, self.reload_high);
        }
        (self.reload_low as u16) | ((self.reload_high as u16) << 8)
    }

    fn tick(&mut self)
        ensures
            *final(self) == old(self).ticked(),
    {
        if self.enabled {
            if self.counter == 0 {
                self.irq = true;
                self.counter = self.reload_value();
                if !self.repeat {
                    self.enabled = false;
                }
            } else {
                self.counter = self.counter - 1;
            }
        }
    }

    fn control(&mut self, value: u8, disk_io: bool)
        ensures
            *final(self) == old(self).controlled(value, disk_io),
    {
        self.repeat = value & 0x1 != 0;
        self.enabled = value & 0x2 != 0 && disk_io;
        if !self.enabled {
            self.irq = false;
        } else {
            self.counter = self.reload_value();
        }
    }
}

/// The drive's state apart from the disk contents.
#[derive(Debug, Copy, Clone, PartialEq, Eq, Structural)]
pub struct DiskDrive {
    pub irq_enabled: bool,
    pub irq: bool,
    pub motor_enabled: bool,
    pub read_data: u8,
    pub write_data: u8,
    pub transfer_mode: DiskMode,
    pub transfer_flag: bool,
    pub index: usize,
    pub transfer_counter: u64,
    pub reset_transfer: bool,
    pub ready: bool,
    pub crc_ready: bool,
    pub crc_control: bool,
    pub prev_crc_control: bool,
    pub gap_ended: bool,
    pub side: Option<usize>,
    pub swap_counter: u64,
}

impl DiskDrive {
    /// No side is inserted, or one was inserted too recently to read.
    pub open spec fn ejected(self) -> bool {
        self.side is None || self.swap_counter > 0
    }

    /// Whether the head passes a byte this cycle.
    pub open spec fn at_byte(self) -> bool {
        self.motor_enabled && !self.ejected() && !(self.reset_transfer && !self.ready)
            && self.transfer_counter == 0
    }

    /// The byte written when the head passes one in write mode: the latch
    /// (unless a CRC is being written), 0 outside a CRC-ready block, $FF
    /// for the CRC.
    pub open spec fn byte_written(self) -> u8 {
        if self.crc_control {
            0xff
        } else if !self.crc_ready {
            0
        } else {
            self.write_data
        }
    }

    /// One cycle of a side of `side_len` bytes whose byte under the head
    /// is `data`: a stopped motor or ejected disk rewinds; a drive waiting
    /// out a transfer reset holds; else every 152 cycles the head passes a
    /// byte, reading it (once the gap has ended, raising the transfer flag
    /// and IRQ) or writing it, and moves on, stopping the motor at the end.
    pub open spec fn stepped(self, data: u8, side_len: int) -> DiskDrive {
        if !self.motor_enabled || self.ejected() {
            DiskDrive {
                ready: false,
                index: 0,
                transfer_counter: SPIN_UP_CYCLES,
                gap_ended: false,
                ..self
            }
        } else if self.reset_transfer && !self.ready {
            self
        } else if self.transfer_counter != 0 {
            DiskDrive { transfer_counter: (self.transfer_counter - 1) as u64, ..self }
        } else {
            DiskDrive { ready: true, transfer_counter: BYTE_CYCLES, ..self }.transferred(
                data,
            ).advanced(side_len)
        }
    }

    /// The byte under the head passes: read mode latches it once the gap
    /// has ended (a CRC-ready block's first non-zero byte ends the gap
    /// without an IRQ), raising the transfer flag and, if enabled, the
    /// IRQ; write mode raises them unless writing the CRC.
    pub open spec fn transferred(self, data: u8) -> DiskDrive {
        match self.transfer_mode {
            DiskMode::Read => {
                let (gap, irq_ok) = if !self.crc_ready {
                    (false, self.irq_enabled)
                } else if !self.gap_ended && data != 0 {
                    (true, false)
                } else {
                    (self.gap_ended, self.irq_enabled)
                };
                if gap {
                    DiskDrive {
                        gap_ended: gap,
                        read_data: data,
                        transfer_flag: true,
                        irq: self.irq || irq_ok,
                        ..self
                    }
                } else {
                    DiskDrive { gap_ended: gap, ..self }
                }
            },
            DiskMode::Write => if !self.crc_control {
                DiskDrive { transfer_flag: true, irq: self.irq || self.irq_enabled, gap_ended: false, ..self }
            } else {
                DiskDrive { gap_ended: false, ..self }
            },
        }
    }

    /// The head moves to the next byte, stopping the motor and rewinding
    /// at the end of the side.
    pub open spec fn advanced(self, side_len: int) -> DiskDrive {
        let s = DiskDrive { prev_crc_control: self.crc_control, ..self };
        if s.index + 1 >= side_len {
            DiskDrive { motor_enabled: false, index: 0, ..s }
        } else {
            DiskDrive { index: (s.index + 1) as usize, ..s }
        }
    }

    /// $4025: motor, transfer reset, mode, CRC control, CRC ready and IRQ
    /// enable; the disk IRQ is acknowledged.
    pub open spec fn controlled(self, value: u8) -> DiskDrive {
        DiskDrive {
            irq: false,
            motor_enabled: value & 0x01 != 0,
            reset_transfer: value & 0x02 != 0,
            transfer_mode: if value & 0x04 != 0 { DiskMode::Read } else { DiskMode::Write },
            crc_control: value & 0x10 != 0,
            crc_ready: value & 0x40 != 0,
            irq_enabled: value & 0x80 != 0,
            ..self
        }
    }

    /// Inserting a side (indices up to the number of sides pass the range
    /// check) reads as ejected for a while; either way the head rewinds
    /// and the motor stops.
    pub open spec fn changed(self, side: Option<usize>, sides: nat) -> DiskDrive {
        match side {
            Some(s) => if s > sides {
                self
            } else {
                DiskDrive {
                    side: Some(s),
                    swap_counter: SWAP_CYCLES,
                    index: 0,
                    motor_enabled: false,
                    ready: false,
                    ..self
                }
            },
            None => DiskDrive { side: None, index: 0, motor_enabled: false, ready: false, ..self },
        }
    }

    fn step(&mut self, data: u8, side_len: usize)
        requires
            old(self).side is Some ==> old(self).index < side_len,
            old(self).side is None ==> old(self).index == 0,
        ensures
            *final(self) == old(self).stepped(data, side_len as int),
            final(self).side == old(self).side,
            final(self).side is Some ==> final(self).index < side_len,
            final(self).side is None ==> final(self).index == 0,
    {
        if !self.motor_enabled || self.side.is_none() || self.swap_counter > 0 {
            self.ready = false;
            self.index = 0;
            self.transfer_counter = 50000;
            self.gap_ended = false;
            return;
        }
        if self.reset_transfer && !self.ready {
            return;
        }
        if self.transfer_counter != 0 {
            self.transfer_counter = self.transfer_counter - 1;
            return;
        }
        self.ready = true;
        self.transfer_counter = 152;
        self.transfer(data);
        self.advance(side_len);
    }

    fn transfer(&mut self, data: u8)
        ensures
            *final(self) == old(self).transferred(data),
    {
        match self.transfer_mode {
            DiskMode::Read => {
                let mut need_irq = self.irq_enabled;
                if !self.crc_ready {
                    self.gap_ended = false;
                } else if !self.gap_ended && data != 0 {
                    self.gap_ended = true;
                    need_irq = false;
                }
                if self.gap_ended {
                    self.read_data = data;
                    self.transfer_flag = true;
                    if need_irq {
                        self.irq = true;
                    }
                }
            },
            DiskMode::Write => {
                if !self.crc_control {
                    self.transfer_flag = true;
                    if self.irq_enabled {
                        self.irq = true;
                    }
                }
                self.gap_ended = false;
            },
        }
    }

    fn advance(&mut self, side_len: usize)
        requires
            old(self).index < side_len,
        ensures
            *final(self) == old(self).advanced(side_len as int),
            final(self).index < side_len,
    {
        self.prev_crc_control = self.crc_control;
        self.index = self.index + 1;
        if self.index >= side_len {
            self.motor_enabled = false;
            self.index = 0;
        }
    }

    fn change(&mut self, side: Option<usize>, sides: usize)
        ensures
            *final(self) == old(self).changed(side, sides as nat),
    {
        if let Some(side) = side {
            if side > sides {
                return;
            }
            self.side = Some(side);
            self.swap_counter = 2_000_000;
        } else {
            self.side = None;
        }
        self.index = 0;
        self.motor_enabled = false;
        self.ready = false;
    }

    /// Acknowledges the disk IRQ and the transfer flag.
    fn acknowledge(&mut self)
        ensures
            *final(self) == (DiskDrive { irq: false, transfer_flag: false, ..*old(self) }),
    {
        self.irq = false;
        self.transfer_flag = false;
    }

    fn control(&mut self, value: u8)
        ensures
            *final(self) == old(self).controlled(value),
    {
        self.irq = false;
        self.motor_enabled = value & 0x01 != 0;
        self.reset_transfer = value & 0x02 != 0;
        self.transfer_mode = if value & 0x04 != 0 {
            DiskMode::Read
        } else {
            DiskMode::Write
        };
        self.crc_control = value & 0x10 != 0;
        self.crc_ready = value & 0x40 != 0;
        self.irq_enabled = value & 0x80 != 0;
    }
}

/// Every side holds data.
pub open spec fn sides_ok(sides: Seq<Vec<u8>>) -> bool {
    forall|k: int| 0 <= k < sides.len() ==> #[trigger] sides[k]@.len() > 0
}

/// The sides after `value` is written at `at` on side `side`.
pub open spec fn sides_written(old: Seq<Vec<u8>>, new: Seq<Vec<u8>>, side: int, at: int, value: u8) -> bool {
    &&& new.len() == old.len()
    &&& forall|k: int|
        0 <= k < old.len() ==> #[trigger] new[k]@ == (if k == side {
            old[k]@.update(at, value)
        } else {
            old[k]@
        })
}

pub struct Fds {
    disk_sides: Vec<Vec<u8>>,
    bios: Vec<u8>,
    prg_ram: MemoryBlock,
    chr_ram: MemoryBlock,
    mirroring: SimpleMirroring,
    timer: FdsTimer,
    drive: DiskDrive,
    enable_disk_io: bool,
    enable_sound_io: bool,
    sound: Sound,
}

impl Fds {
    pub closed spec fn sides(&self) -> Seq<Vec<u8>> {
        self.disk_sides@
    }

    pub closed spec fn bios(&self) -> Seq<u8> {
        self.bios@
    }

    pub closed spec fn ram(&self) -> Seq<u8> {
        self.prg_ram@
    }

    pub closed spec fn chr(&self) -> Seq<u8> {
        self.chr_ram@
    }

    pub closed spec fn sound(&self) -> Sound {
        self.sound
    }

    pub closed spec fn mirroring(&self) -> Mirroring {
        self.mirroring.mirroring
    }

    pub closed spec fn timer(&self) -> FdsTimer {
        self.timer
    }

    pub closed spec fn drive(&self) -> DiskDrive {
        self.drive
    }

    /// Disk I/O and sound I/O enables.
    pub closed spec fn io(&self) -> (bool, bool) {
        (self.enable_disk_io, self.enable_sound_io)
    }

    /// The byte under the head, or 0 with no side inserted.
    pub closed spec fn head_byte(&self) -> u8 {
        match self.drive.side {
            Some(s) => self.disk_sides@[s as int]@[self.drive.index as int],
            None => 0,
        }
    }

    /// The length of the inserted side, or 0.
    pub closed spec fn side_len(&self) -> int {
        match self.drive.side {
            Some(s) => self.disk_sides@[s as int]@.len() as int,
            None => 0,
        }
    }

    /// The board as it comes up at power-on from this image.
    pub open spec fn powered_on(&self, disk: crate::cartridge::Fds) -> bool {
        &&& self.sides() == disk.disk_sides@
        &&& self.bios() == disk.bios@
        &&& self.ram() == Seq::new(32 * 1024, |i: int| 0u8)
        &&& self.chr() == Seq::new(8 * 1024, |i: int| 0u8)
        &&& self.mirroring() == Mirroring::Vertical
        &&& self.drive().side == Some(0usize)
        &&& self.drive().index == 0 && !self.drive().motor_enabled && !self.drive().ready
        &&& self.timer() == (FdsTimer {
                counter: 0,
                reload_low: 0,
                reload_high: 0,
                repeat: false,
                enabled: false,
                irq: false,
            })
        &&& self.io() == (true, true)
        &&& (disk.bios@.len() >= 0x2000 && disk.disk_sides@.len() > 0 && sides_ok(disk.disk_sides@))
                ==> self.wf()
    }

    /// The disk sides and BIOS of the image; the first side inserted.
    pub fn new(disk: crate::cartridge::Fds) -> (r: Self)
        ensures
            r.powered_on(disk),
            r.sides() == disk.disk_sides@,
            r.bios() == disk.bios@,
            r.ram() == Seq::new(32 * 1024, |i: int| 0u8),
            r.chr() == Seq::new(8 * 1024, |i: int| 0u8),
            r.mirroring() == Mirroring::Vertical,
            r.drive().side == Some(0usize),
            r.drive().index == 0 && !r.drive().motor_enabled && !r.drive().ready,
            r.timer() == (FdsTimer {
                counter: 0,
                reload_low: 0,
                reload_high: 0,
                repeat: false,
                enabled: false,
                irq: false,
            }),
            r.io() == (true, true),
            (disk.bios@.len() >= 0x2000 && disk.disk_sides@.len() > 0 && sides_ok(disk.disk_sides@))
                ==> r.wf(),
    {
        Fds {
            disk_sides: disk.disk_sides,
            bios: disk.bios,
            prg_ram: MemoryBlock::new(32),
            chr_ram: MemoryBlock::new(8),
            mirroring: SimpleMirroring::new(Mirroring::Vertical),
            timer: FdsTimer {
                counter: 0,
                reload_low: 0,
                reload_high: 0,
                repeat: false,
                enabled: false,
                irq: false,
            },
            drive: DiskDrive {
                irq_enabled: false,
                irq: false,
                motor_enabled: false,
                read_data: 0,
                write_data: 0,
                transfer_mode: DiskMode::Read,
                transfer_flag: false,
                index: 0,
                transfer_counter: 0,
                reset_transfer: false,
                ready: false,
                crc_ready: false,
                crc_control: false,
                prev_crc_control: false,
                gap_ended: false,
                side: Some(0),
                swap_counter: 0,
            },
            enable_disk_io: true,
            enable_sound_io: true,
            sound: Sound::new(),
        }
    }

    /// What a side-effect-free CPU read returns: the RAM at $6000-$DFFF,
    /// the BIOS above.
    pub closed spec fn spec_peek_cpu(&self, addr: u16) -> u8 {
        if 0x6000 <= addr < 0xe000 {
            banked(self.prg_ram@, 0, 0x8000, (addr - 0x6000) as u16)
        } else if addr >= 0xe000 {
            self.bios@[(addr as int) % 0x2000]
        } else {
            0
        }
    }

    /// A CPU read and the board after it: with disk I/O on, $4040-$4097
    /// read the sound, $4030 the disk status (acknowledging both IRQs and
    /// the transfer flag), $4031 the data (acknowledging the disk IRQ and
    /// the flag), $4032 the drive status, $4033 the battery bit.
    pub closed spec fn read_cpu_post(self, addr: u16) -> (Fds, u8) {
        let io = self.enable_disk_io;
        if 0x4040 <= addr < 0x4098 {
            (self, if io { self.sound.spec_read(addr) } else { 0 })
        } else if addr == 0x4030 && io {
            (self.status_acknowledged(), self.disk_status())
        } else if addr == 0x4031 && io {
            (self.with_drive(DiskDrive { irq: false, transfer_flag: false, ..self.drive }), self.drive.read_data)
        } else if addr == 0x4032 && io {
            (self, self.drive_status())
        } else if addr == 0x4033 && io {
            (self, 0x80)
        } else {
            (self, self.spec_peek_cpu(addr))
        }
    }

    /// $4030: bit 0 the timer IRQ, bit 1 the transfer flag.
    pub closed spec fn disk_status(self) -> u8 {
        ((if self.timer.irq { 1int } else { 0 }) + (if self.drive.transfer_flag { 2int } else { 0 })) as u8
    }

    /// After a $4030 read: both IRQs and the transfer flag acknowledged.
    pub closed spec fn status_acknowledged(self) -> Fds {
        Fds {
            timer: FdsTimer { irq: false, ..self.timer },
            drive: DiskDrive { irq: false, transfer_flag: false, ..self.drive },
            ..self
        }
    }

    /// $4032: bit 0 and 2 an ejected disk, bit 1 not ready.
    pub closed spec fn drive_status(self) -> u8 {
        let e = self.drive.ejected();
        ((if e { 1int } else { 0 }) + (if !self.drive.ready || e { 2int } else { 0 }) + (if e {
            4int
        } else {
            0
        })) as u8
    }

    fn peek_cpu(&self, addr: u16) -> (r: u8)
        requires
            self.wf(),
        ensures
            r == self.spec_peek_cpu(addr),
    {
        proof {
            lemma_bank_sizes();
        }
        if addr >= 0x6000 && addr < 0xe000 {
            self.prg_ram.read_mapped(0, 32 * 1024, addr - 0x6000)
        } else if addr >= 0xe000 {
            self.bios[(addr % 0x2000) as usize]
        } else {
            0
        }
    }

    fn read_status(&mut self) -> (r: u8)
        requires
            old(self).wf(),
        ensures
            final(self).wf(),
            r == old(self).disk_status(),
            *final(self) == old(self).status_acknowledged(),
    {
        let mut value: u8 = 0;
        if self.timer.irq {
            value = value + 1;
        }
        if self.drive.transfer_flag {
            value = value + 2;
        }
        self.timer.irq = false;
        self.drive.acknowledge();
        value
    }

    fn read_drive_status(&self) -> (r: u8)
        ensures
            r == self.drive_status(),
    {
        let ejected = self.drive.side.is_none() || self.drive.swap_counter > 0;
        let mut value: u8 = 0;
        if ejected {
            value = value + 1;
        }
        if !self.drive.ready || ejected {
            value = value + 2;
        }
        if ejected {
            value = value + 4;
        }
        value
    }

    fn read_cpu(&mut self, addr: u16) -> (r: u8)
        requires
            old(self).wf(),
        ensures
            final(self).wf(),
            (*final(self), r) == old(self).read_cpu_post(addr),
    {
        if addr >= 0x4040 && addr < 0x4098 {
            if self.enable_disk_io {
                return self.sound.read(addr);
            } else {
                return 0;
            }
        }
        if addr == 0x4030 && self.enable_disk_io {
            self.read_status()
        } else if addr == 0x4031 && self.enable_disk_io {
            self.drive.acknowledge();
            self.drive.read_data
        } else if addr == 0x4032 && self.enable_disk_io {
            self.read_drive_status()
        } else if addr == 0x4033 && self.enable_disk_io {
            0x80
        } else {
            self.peek_cpu(addr)
        }
    }

    /// The board after a CPU write, apart from the sound chip and RAM
    /// (given by `written_from`).
    pub closed spec fn write_post(self, addr: u16, value: u8) -> Fds {
        let io = self.enable_disk_io;
        if 0x4040 <= addr < 0x4098 {
            self
        } else if addr == 0x4020 {
            self.with_timer(FdsTimer { reload_low: value, ..self.timer })
        } else if addr == 0x4021 {
            self.with_timer(FdsTimer { reload_high: value, ..self.timer })
        } else if addr == 0x4022 {
            self.with_timer(self.timer.controlled(value, io))
        } else if addr == 0x4023 {
            self.master_io_written(value)
        } else if addr == 0x4024 && io {
            self.with_drive(DiskDrive { irq: false, transfer_flag: false, write_data: value, ..self.drive })
        } else if addr == 0x4025 && io {
            self.disk_control_written(value)
        } else {
            self
        }
    }

    pub closed spec fn with_timer(self, timer: FdsTimer) -> Fds {
        Fds { timer, ..self }
    }

    pub closed spec fn with_drive(self, drive: DiskDrive) -> Fds {
        Fds { drive, ..self }
    }

    /// $4023: disk and sound I/O enables; disabling disk I/O drops both
    /// IRQs and stops the timer.
    pub closed spec fn master_io_written(self, value: u8) -> Fds {
        let disk_io = value & 0x1 != 0;
        Fds {
            enable_disk_io: disk_io,
            enable_sound_io: value & 0x2 != 0,
            drive: if disk_io { self.drive } else { DiskDrive { irq: false, ..self.drive } },
            timer: if disk_io { self.timer } else { FdsTimer { irq: false, enabled: false, ..self.timer } },
            ..self
        }
    }

    /// $4025: the drive control and the mirroring (bit 3 horizontal).
    pub closed spec fn disk_control_written(self, value: u8) -> Fds {
        Fds {
            drive: self.drive.controlled(value),
            mirroring: SimpleMirroring {
                mirroring: if value & 0x08 != 0 { Mirroring::Horizontal } else { Mirroring::Vertical },
            },
            ..self
        }
    }

    /// A CPU write: the sound registers (with disk I/O on), the timer and
    /// disk registers, and the RAM at $6000-$DFFF.
    pub closed spec fn written_from(&self, old: &Fds, addr: u16, value: u8) -> bool {
        &&& *self == Fds { sound: self.sound, prg_ram: self.prg_ram, ..old.write_post(addr, value) }
        &&& if 0x4040 <= addr < 0x4098 && old.enable_disk_io {
            self.sound.written_from(&old.sound, addr, value)
        } else {
            self.sound == old.sound
        }
        &&& self.prg_ram@ == if 0x6000 <= addr < 0xe000 {
            old.prg_ram@.update(banked_index(old.prg_ram@, 0, 0x8000, (addr - 0x6000) as u16), value)
        } else {
            old.prg_ram@
        }
    }

    #[verifier::rlimit(40)]
    fn write_register(&mut self, addr: u16, value: u8)
        requires
            old(self).wf(),
            !(0x4040 <= addr < 0x4098),
            !(0x6000 <= addr < 0xe000),
        ensures
            final(self).wf(),
            *final(self) == old(self).write_post(addr, value),
    {
        if addr == 0x4020 || addr == 0x4021 || addr == 0x4022 {
            let t = self.timer_written(addr, value);
            self.timer = t;
        } else if addr == 0x4023 {
            self.write_master_io(value);
        } else if addr == 0x4024 && self.enable_disk_io {
            let mut d = self.drive;
            d.acknowledge();
            d.write_data = value;
            self.drive = d;
        } else if addr == 0x4025 && self.enable_disk_io {
            self.write_disk_control(value);
        }
    }

    fn timer_written(&self, addr: u16, value: u8) -> (r: FdsTimer)
        requires
            addr == 0x4020 || addr == 0x4021 || addr == 0x4022,
        ensures
            self.write_post(addr, value) == self.with_timer(r),
    {
        let mut t = self.timer;
        if addr == 0x4020 {
            t.reload_low = value;
        } else if addr == 0x4021 {
            t.reload_high = value;
        } else {
            t.control(value, self.enable_disk_io);
        }
        t
    }

    fn write_master_io(&mut self, value: u8)
        requires
            old(self).wf(),
        ensures
            final(self).wf(),
            *final(self) == old(self).master_io_written(value),
    {
        let disk_io = value & 0x1 != 0;
        self.enable_disk_io = disk_io;
        self.enable_sound_io = value & 0x2 != 0;
        if !disk_io {
            self.drive.irq = false;
            self.timer.irq = false;
            self.timer.enabled = false;
        }
    }

    fn write_disk_control(&mut self, value: u8)
        requires
            old(self).wf(),
            old(self).enable_disk_io,
        ensures
            final(self).wf(),
            *final(self) == old(self).disk_control_written(value),
    {
        self.drive.control(value);
        if value & 0x08 != 0 {
            self.mirroring.horizontal();
        } else {
            self.mirroring.vertical();
        }
    }

    fn write_cpu(&mut self, addr: u16, value: u8)
        requires
            old(self).wf(),
        ensures
            final(self).wf(),
            final(self).written_from(&*old(self), addr, value),
    {
        proof {
            lemma_bank_sizes();
        }
        if addr >= 0x4040 && addr < 0x4098 {
            if self.enable_disk_io {
                self.sound.write(addr, value);
            }
        } else if addr >= 0x6000 && addr < 0xe000 {
            self.prg_ram.write_mapped(0, 32 * 1024, addr - 0x6000, value);
        } else {
            self.write_register(addr, value);
        }
    }

    fn disk_write(&mut self, side: usize, at: usize, value: u8)
        requires
            side < old(self).disk_sides@.len(),
            at < old(self).disk_sides@[side as int]@.len(),
        ensures
            *final(self) == (Fds { disk_sides: final(self).disk_sides, ..*old(self) }),
            sides_written(old(self).disk_sides@, final(self).disk_sides@, side as int, at as int, value),
    {
        let mut data = self.disk_sides.remove(side);
        data.set(at, value);
        self.disk_sides.insert(side, data);
        proof {
            assert forall|k: int| 0 <= k < old(self).disk_sides@.len() implies #[trigger] self.disk_sides@[k]@
                == (if k == side as int {
                old(self).disk_sides@[k]@.update(at as int, value)
            } else {
                old(self).disk_sides@[k]@
            }) by {
                if k < side as int {
                } else if k > side as int {
                }
            }
        }
    }

    /// The drive part of one cycle: the drive steps over the inserted side
    /// and, when it passes a byte in write mode, the byte lands two
    /// positions behind the head.
    pub closed spec fn disk_stepped_from(&self, old: &Fds) -> bool {
        let d = old.drive;
        &&& *self == Fds { disk_sides: self.disk_sides, drive: self.drive, ..*old }
        &&& self.drive == d.stepped(old.head_byte(), old.side_len())
        &&& if d.at_byte() && d.transfer_mode is Write {
            sides_written(
                old.disk_sides@,
                self.disk_sides@,
                d.side.unwrap() as int,
                if d.index >= 2 { d.index - 2 } else { 0 },
                d.byte_written(),
            )
        } else {
            self.disk_sides@ == old.disk_sides@
        }
    }

    /// The byte under the head and the side's length (0 and 0 with no
    /// side inserted).
    fn head(&self) -> (r: (u8, usize))
        requires
            self.wf(),
        ensures
            r.0 == self.head_byte(),
            r.1 == self.side_len(),
    {
        match self.drive.side {
            Some(s) => (self.disk_sides[s][self.drive.index], self.disk_sides[s].len()),
            None => (0, 0),
        }
    }

    /// Where and what this cycle writes on the disk, if it does.
    fn write_plan(&self) -> (r: Option<(usize, usize, u8)>)
        requires
            self.wf(),
        ensures
            r is Some == (self.drive.at_byte() && self.drive.transfer_mode is Write),
            r matches Some((side, at, byte)) ==> {
                &&& Some(side) == self.drive.side
                &&& at == if self.drive.index >= 2 { self.drive.index - 2 } else { 0 }
                &&& byte == self.drive.byte_written()
                &&& side < self.disk_sides@.len()
                &&& at < self.disk_sides@[side as int]@.len()
            },
    {
        let d = &self.drive;
        if d.motor_enabled && d.swap_counter == 0 && !(d.reset_transfer && !d.ready)
            && d.transfer_counter == 0 && d.transfer_mode == DiskMode::Write {
            match d.side {
                Some(side) => {
                    let byte: u8 = if d.crc_control {
                        0xff
                    } else if !d.crc_ready {
                        0
                    } else {
                        d.write_data
                    };
                    Some((side, d.index.saturating_sub(2), byte))
                },
                None => None,
            }
        } else {
            None
        }
    }

    fn step_disk(&mut self)
        requires
            old(self).wf(),
        ensures
            final(self).wf(),
            final(self).disk_stepped_from(&*old(self)),
    {
        let plan = self.write_plan();
        let (data, len) = self.head();
        self.drive.step(data, len);
        if let Some((side, at, byte)) = plan {
            self.disk_write(side, at, byte);
        }
    }

    fn change_disk(&mut self, side: Option<usize>)
        requires
            old(self).wf(),
            side matches Some(s) ==> s != old(self).disk_sides@.len(),
        ensures
            final(self).wf(),
            *final(self) == old(self).disk_changed(side),
    {
        let n = self.disk_sides.len();
        self.drive.change(side, n);
    }

    /// The board after one cycle, apart from the drive: the sound, the
    /// timer and the swap countdown advance.
    pub closed spec fn clocked(self) -> Fds {
        Fds {
            sound: self.sound.ticked(),
            timer: self.timer.ticked(),
            drive: DiskDrive {
                swap_counter: if self.drive.swap_counter != 0 {
                    (self.drive.swap_counter - 1) as u64
                } else {
                    0
                },
                ..self.drive
            },
            ..self
        }
    }

    /// The board after inserting or ejecting a side.
    pub closed spec fn disk_changed(self, side: Option<usize>) -> Fds {
        Fds { drive: self.drive.changed(side, self.disk_sides@.len()), ..self }
    }

    /// A PPU write: CHR RAM below $2000, nothing above.
    pub closed spec fn ppu_written_from(&self, old: &Fds, addr: u16, value: u8) -> bool {
        &&& *self == Fds { chr_ram: self.chr_ram, ..*old }
        &&& self.chr_ram@ == if addr < 0x2000 {
            old.chr_ram@.update(banked_index(old.chr_ram@, 0, 0x2000, addr), value)
        } else {
            old.chr_ram@
        }
    }
}

impl Mapper for Fds {
    closed spec fn wf(&self) -> bool {
        &&& self.prg_ram@.len() == 32 * 1024
        &&& self.chr_ram@.len() == 8 * 1024
        &&& self.bios@.len() >= 0x2000
        &&& self.sound.wf()
        &&& sides_ok(self.disk_sides@)
        &&& match self.drive.side {
            Some(s) => s < self.disk_sides@.len() && self.drive.index < self.disk_sides@[s as int]@.len(),
            None => self.drive.index == 0,
        }
    }

    open spec fn readable(&self, bus: BusKind, addr: u16) -> bool {
        true
    }

    open spec fn writable(&self, bus: BusKind, addr: u16) -> bool {
        true
    }

    open spec fn fetchable(&self, address: u16) -> bool {
        true
    }

    /// A side one past the last cannot be inserted.
    closed spec fn accepts(&self, input: MapperInput) -> bool {
        input matches MapperInput::Fds(FdsInput::SetDisk(Some(s))) ==> s != self.disk_sides@.len()
    }

    open spec fn spec_peek(&self, bus: BusKind, addr: u16) -> u8 {
        match bus {
            BusKind::Cpu => self.spec_peek_cpu(addr),
            BusKind::Ppu => banked(self.chr(), 0, 0x2000, addr),
        }
    }

    closed spec fn spec_nametable(&self, address: u16) -> Nametable {
        self.mirroring.mirroring.spec_ppu_fetch(address)
    }

    fn register(&self, cpu: &mut AddressBus)
        ensures
            final(cpu).reads() == old(cpu).reads().push(
                (MappingFn::AndEqualsAndMask(AndEqualsAndMask(0xe000, 0x6000, 0xffff)), DeviceKind::Mapper),
            ).push((MappingFn::AndAndMask(AndAndMask(0x8000, 0xffff)), DeviceKind::Mapper)).push(
                (MappingFn::RangeAndMask(RangeAndMask(0x4020, 0x4100, 0xffff)), DeviceKind::Mapper),
            ),
            final(cpu).writes() == old(cpu).writes().push(
                (MappingFn::AndEqualsAndMask(AndEqualsAndMask(0xe000, 0x6000, 0xffff)), DeviceKind::Mapper),
            ).push((MappingFn::AndAndMask(AndAndMask(0x8000, 0xffff)), DeviceKind::Mapper)).push(
                (MappingFn::RangeAndMask(RangeAndMask(0x4020, 0x4100, 0xffff)), DeviceKind::Mapper),
            ),
    {
        cpu.register_read(DeviceKind::Mapper, AndEqualsAndMask(0xe000, 0x6000, 0xffff).into());
        cpu.register_write(DeviceKind::Mapper, AndEqualsAndMask(0xe000, 0x6000, 0xffff).into());
        cpu.register_read(DeviceKind::Mapper, AndAndMask(0x8000, 0xffff).into());
        cpu.register_write(DeviceKind::Mapper, AndAndMask(0x8000, 0xffff).into());
        cpu.register_read(DeviceKind::Mapper, RangeAndMask(0x4020, 0x4100, 0xffff).into());
        cpu.register_write(DeviceKind::Mapper, RangeAndMask(0x4020, 0x4100, 0xffff).into());
    }

    fn peek(&self, bus: BusKind, addr: u16) -> (r: u8) {
        match bus {
            BusKind::Cpu => self.peek_cpu(addr),
            BusKind::Ppu => {
                proof {
                    lemma_bank_sizes();
                }
                self.chr_ram.read_mapped(0, 8 * 1024, addr)
            },
        }
    }

    fn read(&mut self, bus: BusKind, addr: u16) -> (r: u8)
        ensures
            old(self).was_read(&*final(self), r, bus, addr),
            bus is Cpu ==> (*final(self), r) == old(self).read_cpu_post(addr),
            bus is Ppu ==> r == old(self).spec_peek(bus, addr) && *final(self) == *old(self),
    {
        match bus {
            BusKind::Cpu => self.read_cpu(addr),
            BusKind::Ppu => self.peek(bus, addr),
        }
    }

    /// PPU writes below $2000 land in CHR RAM.
    fn write(&mut self, bus: BusKind, addr: u16, value: u8)
        ensures
            old(self).wrote(&*final(self), bus, addr, value),
            bus is Cpu ==> final(self).written_from(&*old(self), addr, value),
            bus is Ppu ==> final(self).ppu_written_from(&*old(self), addr, value),
    {
        match bus {
            BusKind::Cpu => self.write_cpu(addr, value),
            BusKind::Ppu => {
                proof {
                    lemma_bank_sizes();
                }
                if addr < 0x2000 {
                    self.chr_ram.write_mapped(0, 8 * 1024, addr, value);
                }
            },
        }
    }

    fn peek_ppu_fetch(&self, address: u16, _kind: PpuFetchKind) -> (r: Nametable) {
        self.mirroring.ppu_fetch(address)
    }

    /// One cycle: the sound, the timer and the swap countdown advance, then
    /// the drive.
    fn tick(&mut self)
        ensures
            old(self).ticked_to(&*final(self)),
            final(self).disk_stepped_from(&old(self).clocked()),
    {
        self.sound.tick();
        self.timer.tick();
        if self.drive.swap_counter != 0 {
            self.drive.swap_counter = self.drive.swap_counter - 1;
        }
        self.step_disk();
    }

    fn get_irq(&self) -> (r: bool)
        ensures
            self.irq_is(r),
            r == (self.timer().irq || self.drive().irq),
    {
        self.timer.irq || self.drive.irq
    }

    fn get_sample(&self) -> (r: Option<i16>)
        ensures
            self.sample_is(r),
            r == Some(self.sound().spec_output()),
    {
        Some(self.sound.output())
    }

    fn input(&mut self, input: MapperInput)
        ensures
            *final(self) == match input {
                MapperInput::Fds(FdsInput::SetDisk(side)) => old(self).disk_changed(side),
            },
    {
        match input {
            MapperInput::Fds(fds) => match fds {
                FdsInput::SetDisk(side) => self.change_disk(side),
            },
        }
    }
}

impl Fds {
    /// What a write does to the board.
    pub open spec fn wrote(&self, new: &Fds, bus: BusKind, addr: u16, value: u8) -> bool {
        &&& bus is Cpu ==> new.written_from(self, addr, value)
        &&& bus is Ppu ==> new.ppu_written_from(self, addr, value)
    }

    /// What a read returns and does to the board.
    pub open spec fn was_read(&self, new: &Fds, r: u8, bus: BusKind, addr: u16) -> bool {
        &&& bus is Cpu ==> (*new, r) == self.read_cpu_post(addr)
        &&& bus is Ppu ==> r == self.spec_peek(bus, addr) && *new == *self
    }

    /// What a cycle does to the board.
    pub open spec fn ticked_to(&self, new: &Fds) -> bool {
        &&& new.disk_stepped_from(&self.clocked())
    }

    /// The board's IRQ line.
    pub open spec fn irq_is(&self, r: bool) -> bool {
        &&& r == (self.timer().irq || self.drive().irq)
    }

    /// The board's audio sample.
    pub open spec fn sample_is(&self, r: Option<i16>) -> bool {
        &&& r == Some(self.sound().spec_output())
    }
}

} // verus!
