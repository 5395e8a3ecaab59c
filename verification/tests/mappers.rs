use nes::bus::BusKind;
use nes::cartridge::{CartMirroring, INes};
use nes::mapper::fme7::Fme7;
use nes::mapper::mmc1::Mmc1;
use nes::mapper::mmc2::{Mmc2, Mmc2Variant};
use nes::mapper::mmc3::{Mmc3, Mmc3Variant};
use nes::mapper::namco163::Namco163;
use nes::mapper::namco175_340::{Namco175_340, NamcoVariant};
use nes::mapper::nrom::Nrom;
use nes::mapper::vrc4::{Vrc4, Vrc4Variant};
use nes::mapper::vrc6::{Vrc6, Vrc6Variant};
use nes::mapper::vrc7::{Sound as Vrc7Sound, Vrc7, Vrc7Variant};
use nes::mapper::vrc_irq::{VrcIrq, VrcIrqMode};
use nes::mapper::{ines, Board, Mapper, Mirroring, Nametable, SaveWram, SimpleMirroring};
use nes::memory::RomBlock;
use nes::ppu::PpuFetchKind;

/// PRG ROM whose every byte names its 8 KiB bank.
fn prg_banks(banks: usize) -> Vec<u8> {
    (0..banks * 0x2000).map(|i| (i / 0x2000) as u8).collect()
}

/// CHR ROM whose every byte names its 1 KiB bank.
fn chr_banks(banks: usize) -> Vec<u8> {
    (0..banks * 0x400).map(|i| (i / 0x400) as u8).collect()
}

fn cart(prg: Vec<u8>, chr: Vec<u8>, mapper: u32) -> INes {
    INes {
        chr_ram_bytes: if chr.is_empty() { 0x2000 } else { 0 },
        prg_ram_bytes: 0x2000,
        prg_rom: RomBlock::new(prg),
        chr_rom: RomBlock::new(chr),
        mirroring: CartMirroring::Vertical,
        alternative_mirroring: false,
        mapper,
        submapper: None,
        wram: None,
        battery: false,
    }
}

#[test]
fn nrom_mirrors_16k_prg() {
    let mut prg = vec![0u8; 0x4000];
    prg[0] = 0x11;
    prg[0x3fff] = 0x22;
    let m = Nrom::new(cart(prg, chr_banks(8), 0));
    assert_eq!(m.peek(BusKind::Cpu, 0x8000), 0x11);
    assert_eq!(m.peek(BusKind::Cpu, 0xc000), 0x11);
    assert_eq!(m.peek(BusKind::Cpu, 0xffff), 0x22);
    assert_eq!(m.peek(BusKind::Ppu, 0x1c00), 7);
}

#[test]
fn nrom_vertical_mirroring_nametables() {
    let m = Nrom::new(cart(prg_banks(2), chr_banks(8), 0));
    assert_eq!(m.peek_ppu_fetch(0x2000, PpuFetchKind::Read), Nametable::InternalB);
    assert_eq!(m.peek_ppu_fetch(0x2400, PpuFetchKind::Read), Nametable::InternalA);
    assert_eq!(m.peek_ppu_fetch(0x0400, PpuFetchKind::Read), Nametable::External);
}

#[test]
fn ines_selects_boards() {
    assert!(matches!(ines(cart(prg_banks(4), chr_banks(8), 1)).0, Board::Mmc1(_)));
    assert!(matches!(ines(cart(prg_banks(4), chr_banks(8), 4)).0, Board::Mmc3(_)));
    assert!(matches!(ines(cart(prg_banks(4), chr_banks(8), 206)).0, Board::Mmc3(_)));
    assert!(matches!(ines(cart(prg_banks(4), chr_banks(8), 69)).0, Board::Fme7(_)));
    assert!(matches!(ines(cart(prg_banks(4), chr_banks(8), 19)).0, Board::Namco163(_)));
    assert!(matches!(ines(cart(prg_banks(4), chr_banks(8), 24)).0, Board::Vrc6(_)));
    assert!(matches!(ines(cart(prg_banks(4), chr_banks(8), 23)).0, Board::Vrc4(_)));
    assert!(matches!(ines(cart(prg_banks(4), chr_banks(8), 9)).0, Board::Mmc2(_)));
    assert!(matches!(ines(cart(prg_banks(4), chr_banks(8), 210)).0, Board::Namco175_340(_)));
    // A number without a board here falls back to NROM.
    assert!(matches!(ines(cart(prg_banks(4), chr_banks(8), 250)).0, Board::Nrom(_)));
}

#[test]
fn rc_mapper_reads_through_board() {
    let m = ines(cart(prg_banks(2), chr_banks(8), 0));
    assert_eq!(m.peek(BusKind::Cpu, 0xa000), 1);
    assert_eq!(m.get_sample(), None);
    assert!(!m.get_irq());
}

/// Five serial writes (bit 0 each), with the cycles between them that
/// the board requires.
fn mmc1_load(m: &mut Mmc1, addr: u16, value: u8) {
    for i in 0..5 {
        m.tick();
        m.tick();
        m.write(BusKind::Cpu, addr, (value >> i) & 1);
    }
}

#[test]
fn mmc1_switches_16k_bank() {
    let mut m = Mmc1::new(cart(prg_banks(16), chr_banks(8), 1));
    // Power-up mode fixes the last bank at $C000.
    assert_eq!(m.peek(BusKind::Cpu, 0xc000), 14);
    mmc1_load(&mut m, 0xe000, 3);
    assert_eq!(m.peek(BusKind::Cpu, 0x8000), 6);
    assert_eq!(m.peek(BusKind::Cpu, 0xa000), 7);
}

#[test]
fn mmc1_reset_bit_clears_shift() {
    let mut m = Mmc1::new(cart(prg_banks(16), chr_banks(8), 1));
    m.tick();
    m.tick();
    m.write(BusKind::Cpu, 0xe000, 1);
    m.tick();
    m.tick();
    m.write(BusKind::Cpu, 0xe000, 0x80);
    mmc1_load(&mut m, 0xe000, 2);
    assert_eq!(m.peek(BusKind::Cpu, 0x8000), 4);
}

#[test]
fn mmc2_latch_switches_chr() {
    let mut m = Mmc2::new(cart(prg_banks(8), chr_banks(32), 9), Mmc2Variant::Mmc2);
    m.write(BusKind::Cpu, 0xb000, 1);
    m.write(BusKind::Cpu, 0xc000, 2);
    // Latch 0 starts on $FD: register $B000 (4 KiB bank 1 = 1 KiB banks 4-7).
    assert_eq!(m.peek(BusKind::Ppu, 0x0000), 4);
    m.read(BusKind::Ppu, 0x0fe8);
    assert_eq!(m.peek(BusKind::Ppu, 0x0000), 8);
    m.read(BusKind::Ppu, 0x0fd8);
    assert_eq!(m.peek(BusKind::Ppu, 0x0000), 4);
}

#[test]
fn mmc2_fixed_prg_banks() {
    let m = Mmc2::new(cart(prg_banks(8), chr_banks(32), 9), Mmc2Variant::Mmc2);
    assert_eq!(m.peek(BusKind::Cpu, 0xa000), 5);
    assert_eq!(m.peek(BusKind::Cpu, 0xc000), 6);
    assert_eq!(m.peek(BusKind::Cpu, 0xe000), 7);
}

#[test]
fn mmc3_prg_banking_and_swap() {
    let mut m = Mmc3::new(cart(prg_banks(8), chr_banks(8), 4), Mmc3Variant::Mmc3);
    m.write(BusKind::Cpu, 0x8000, 6);
    m.write(BusKind::Cpu, 0x8001, 3);
    assert_eq!(m.peek(BusKind::Cpu, 0x8000), 3);
    assert_eq!(m.peek(BusKind::Cpu, 0xc000), 6);
    assert_eq!(m.peek(BusKind::Cpu, 0xe000), 7);
    m.write(BusKind::Cpu, 0x8000, 0x46);
    assert_eq!(m.peek(BusKind::Cpu, 0x8000), 6);
    assert_eq!(m.peek(BusKind::Cpu, 0xc000), 3);
}

/// One rising edge of A12 after enough low cycles.
fn mmc3_scanline(m: &mut Mmc3) {
    m.ppu_fetch(0x0000, PpuFetchKind::Read);
    for _ in 0..4 {
        m.tick();
    }
    m.ppu_fetch(0x1000, PpuFetchKind::Read);
}

#[test]
fn mmc3_irq_after_latch_plus_one_clocks() {
    let mut m = Mmc3::new(cart(prg_banks(8), chr_banks(8), 4), Mmc3Variant::Mmc3);
    m.write(BusKind::Cpu, 0xc000, 3);
    m.write(BusKind::Cpu, 0xc001, 0);
    m.write(BusKind::Cpu, 0xe001, 0);
    for _ in 0..3 {
        mmc3_scanline(&mut m);
        assert!(!m.get_irq());
    }
    mmc3_scanline(&mut m);
    assert!(m.get_irq());
    m.write(BusKind::Cpu, 0xe000, 0);
    assert!(!m.get_irq());
}

#[test]
fn mmc3_ram_protection() {
    let mut m = Mmc3::new(cart(prg_banks(8), chr_banks(8), 4), Mmc3Variant::Mmc3);
    m.write(BusKind::Cpu, 0x6000, 0x5a);
    assert_eq!(m.peek(BusKind::Cpu, 0x6000), 0x5a);
    m.write(BusKind::Cpu, 0xa001, 0xc0);
    m.write(BusKind::Cpu, 0x6000, 0x11);
    assert_eq!(m.peek(BusKind::Cpu, 0x6000), 0x5a);
    m.write(BusKind::Cpu, 0xa001, 0x00);
    assert_eq!(m.peek(BusKind::Cpu, 0x6123), 0x23);
}

#[test]
fn vrc_irq_overflows_after_256_minus_latch_clocks() {
    let mut irq = VrcIrq::new();
    irq.latch(0xfc);
    irq.control(0x06);
    assert_eq!(irq.mode, VrcIrqMode::Cycle);
    for _ in 0..3 {
        irq.tick();
        assert!(!irq.irq());
    }
    irq.tick();
    assert!(irq.irq());
    irq.acknowledge();
    assert!(!irq.irq());
}

#[test]
fn vrc4_nibble_chr_and_swap_mode() {
    let mut m = Vrc4::new(cart(prg_banks(8), chr_banks(64), 21), Vrc4Variant::Vrc4a);
    // VRC4a: A1 is the chip's A0, A2 its A1.
    m.write(BusKind::Cpu, 0xb000, 0x05);
    m.write(BusKind::Cpu, 0xb002, 0x02);
    assert_eq!(m.peek(BusKind::Ppu, 0x0000), 0x25);
    m.write(BusKind::Cpu, 0x8000, 3);
    assert_eq!(m.peek(BusKind::Cpu, 0x8000), 3);
    assert_eq!(m.peek(BusKind::Cpu, 0xc000), 6);
    m.write(BusKind::Cpu, 0x9004, 0x02);
    assert_eq!(m.peek(BusKind::Cpu, 0x8000), 6);
    assert_eq!(m.peek(BusKind::Cpu, 0xc000), 3);
}

#[test]
fn vrc4_mirroring_register() {
    let mut m = Vrc4::new(cart(prg_banks(8), chr_banks(8), 21), Vrc4Variant::Vrc4a);
    m.write(BusKind::Cpu, 0x9000, 3);
    assert_eq!(m.peek_ppu_fetch(0x2000, PpuFetchKind::Read), Nametable::InternalA);
    assert_eq!(m.peek_ppu_fetch(0x2c00, PpuFetchKind::Read), Nametable::InternalA);
}

#[test]
fn vrc6_prg_and_pulse_sample() {
    let mut m = Vrc6::new(cart(prg_banks(16), chr_banks(8), 24), Vrc6Variant::A);
    m.write(BusKind::Cpu, 0x8000, 2);
    assert_eq!(m.peek(BusKind::Cpu, 0x8000), 4);
    assert_eq!(m.peek(BusKind::Cpu, 0xa000), 5);
    assert_eq!(m.peek(BusKind::Cpu, 0xe000), 15);
    // Constant-volume pulse at level 9, audio running.
    m.write(BusKind::Cpu, 0x9000, 0x89);
    m.write(BusKind::Cpu, 0x9002, 0x80);
    m.write(BusKind::Cpu, 0x9003, 0x00);
    m.tick();
    assert_eq!(m.get_sample(), Some(9 * 511));
}

#[test]
fn fme7_commands_switch_banks() {
    let mut m = Fme7::new(cart(prg_banks(16), chr_banks(16), 69));
    m.write(BusKind::Cpu, 0x8000, 0x09);
    m.write(BusKind::Cpu, 0xa000, 5);
    assert_eq!(m.peek(BusKind::Cpu, 0x8000), 5);
    m.write(BusKind::Cpu, 0x8000, 0x03);
    m.write(BusKind::Cpu, 0xa000, 12);
    assert_eq!(m.peek(BusKind::Ppu, 0x0c00), 12);
    assert_eq!(m.peek(BusKind::Cpu, 0xe000), 15);
}

#[test]
fn fme7_irq_counts_down_through_zero() {
    let mut m = Fme7::new(cart(prg_banks(4), chr_banks(8), 69));
    m.write(BusKind::Cpu, 0x8000, 0x0e);
    m.write(BusKind::Cpu, 0xa000, 2);
    m.write(BusKind::Cpu, 0x8000, 0x0f);
    m.write(BusKind::Cpu, 0xa000, 0);
    m.write(BusKind::Cpu, 0x8000, 0x0d);
    m.write(BusKind::Cpu, 0xa000, 0x81);
    for _ in 0..2 {
        m.tick();
        assert!(!m.get_irq());
    }
    m.tick();
    assert!(m.get_irq());
}

#[test]
fn namco163_sound_ram_port_increments() {
    let mut m = Namco163::new(cart(prg_banks(8), chr_banks(8), 19));
    m.write(BusKind::Cpu, 0xf800, 0x80 | 0x10);
    m.write(BusKind::Cpu, 0x4800, 0xaa);
    m.write(BusKind::Cpu, 0x4800, 0xbb);
    m.write(BusKind::Cpu, 0xf800, 0x10);
    assert_eq!(m.read(BusKind::Cpu, 0x4800), 0xaa);
    m.write(BusKind::Cpu, 0xf800, 0x11);
    assert_eq!(m.read(BusKind::Cpu, 0x4800), 0xbb);
}

#[test]
fn namco163_irq_at_7fff() {
    let mut m = Namco163::new(cart(prg_banks(8), chr_banks(8), 19));
    m.write(BusKind::Cpu, 0x5000, 0xfe);
    m.write(BusKind::Cpu, 0x5800, 0xff);
    assert_eq!(m.peek(BusKind::Cpu, 0x5800), 0x7f);
    m.tick();
    assert!(!m.get_irq());
    m.tick();
    assert!(m.get_irq());
}

#[test]
fn namco175_write_protected_ram() {
    let mut m = Namco175_340::new(cart(prg_banks(8), chr_banks(8), 210), NamcoVariant::Namco175);
    m.write(BusKind::Cpu, 0x6000, 0x42);
    assert_eq!(m.peek(BusKind::Cpu, 0x6000), 0);
    m.write(BusKind::Cpu, 0xc000, 1);
    m.write(BusKind::Cpu, 0x6000, 0x42);
    assert_eq!(m.peek(BusKind::Cpu, 0x6800), 0x42);
}

#[test]
fn mapper_031_4k_banks() {
    let mut m = ines(cart(prg_banks(8), chr_banks(8), 31));
    m.write(BusKind::Cpu, 0x5ff8, 5);
    assert_eq!(m.peek(BusKind::Cpu, 0x8000), 2);
    assert_eq!(m.peek(BusKind::Cpu, 0x8800), 2);
}

#[test]
fn battery_ram_is_saved() {
    let mut c = cart(prg_banks(4), chr_banks(8), 4);
    c.battery = true;
    c.wram = Some(SaveWram::from_bytes(vec![7, 8, 9]));
    let mut m = Mmc3::new(c, Mmc3Variant::Mmc3);
    assert_eq!(m.peek(BusKind::Cpu, 0x6001), 8);
    m.write(BusKind::Cpu, 0x6003, 10);
    let saved = m.save_wram().unwrap().to_bytes();
    assert_eq!(saved.len(), 0x2000);
    assert_eq!(&saved[..4], &[7, 8, 9, 10]);
}

#[test]
fn four_screen_mirroring_fetch() {
    let m = SimpleMirroring::new(Mirroring::FourScreen);
    assert_eq!(m.ppu_fetch(0x2000), Nametable::InternalA);
    assert_eq!(m.ppu_fetch(0x2400), Nametable::InternalB);
    assert_eq!(m.ppu_fetch(0x2c00), Nametable::External);
    let h = SimpleMirroring::new(Mirroring::Horizontal);
    assert_eq!(h.ppu_fetch(0x2400), Nametable::InternalB);
    assert_eq!(h.ppu_fetch(0x2800), Nametable::InternalA);
}

#[test]
fn vrc7_register_lines_per_revision() {
    let mut a = Vrc7::new(cart(prg_banks(8), chr_banks(16), 85), Vrc7Variant::Vrc7a);
    a.write(BusKind::Cpu, 0x8000, 3);
    a.write(BusKind::Cpu, 0x8010, 5);
    a.write(BusKind::Cpu, 0x9000, 6);
    assert_eq!(a.peek(BusKind::Cpu, 0x8000), 3);
    assert_eq!(a.peek(BusKind::Cpu, 0xa000), 5);
    assert_eq!(a.peek(BusKind::Cpu, 0xc000), 6);
    assert_eq!(a.peek(BusKind::Cpu, 0xe000), 7);

    let mut b = Vrc7::new(cart(prg_banks(8), chr_banks(16), 85), Vrc7Variant::Vrc7b);
    b.write(BusKind::Cpu, 0x8008, 4);
    assert_eq!(b.peek(BusKind::Cpu, 0xa000), 4);
    b.write(BusKind::Cpu, 0x8010, 2);
    assert_eq!(b.peek(BusKind::Cpu, 0xa000), 4);
}

#[test]
fn vrc7_chr_banks_and_mirroring() {
    let mut m = Vrc7::new(cart(prg_banks(8), chr_banks(16), 85), Vrc7Variant::Vrc7a);
    m.write(BusKind::Cpu, 0xa000, 9);
    m.write(BusKind::Cpu, 0xd010, 3);
    assert_eq!(m.peek(BusKind::Ppu, 0x0000), 9);
    assert_eq!(m.peek(BusKind::Ppu, 0x1c00), 3);
    m.write(BusKind::Cpu, 0xe000, 0x81);
    assert_eq!(m.peek_ppu_fetch(0x2400, PpuFetchKind::Read), Nametable::InternalB);
    assert_eq!(m.peek_ppu_fetch(0x2800, PpuFetchKind::Read), Nametable::InternalA);
    m.write(BusKind::Cpu, 0xe000, 0x83);
    assert_eq!(m.peek_ppu_fetch(0x2400, PpuFetchKind::Read), Nametable::InternalA);
}

#[test]
fn vrc7_ram_protect_bit() {
    let mut m = Vrc7::new(cart(prg_banks(8), chr_banks(16), 85), Vrc7Variant::Vrc7a);
    m.write(BusKind::Cpu, 0x6000, 0x42);
    assert_eq!(m.peek(BusKind::Cpu, 0x6000), 0x42);
    m.write(BusKind::Cpu, 0xe000, 0x00);
    m.write(BusKind::Cpu, 0x6000, 0x17);
    assert_eq!(m.peek(BusKind::Cpu, 0x6000), 0x42);
    m.write(BusKind::Cpu, 0xe000, 0x80);
    m.write(BusKind::Cpu, 0x6000, 0x17);
    assert_eq!(m.peek(BusKind::Cpu, 0x6000), 0x17);
}

#[test]
fn vrc7_irq_and_board_selection() {
    let mut m = Vrc7::new(cart(prg_banks(8), chr_banks(16), 85), Vrc7Variant::Vrc7a);
    m.write(BusKind::Cpu, 0xe010, 0xfe);
    m.write(BusKind::Cpu, 0xf000, 0x06);
    m.tick();
    assert!(!m.get_irq());
    m.tick();
    assert!(m.get_irq());
    m.write(BusKind::Cpu, 0xf010, 0);
    assert!(!m.get_irq());
    let rc = ines(cart(prg_banks(8), chr_banks(16), 85));
    assert!(matches!(rc.0, Board::Vrc7(_)));
}

#[test]
fn vrc7_sound_silent_until_released() {
    let mut s = Vrc7Sound::new();
    assert_eq!(s.output(), 16383);
    s.write(0x9010, 0x10);
    s.write(0x9030, 0xff);
    s.write(0xe000, 0x00);
    assert_eq!(s.output(), 16383);
    // Channel 0: frequency $1FF, octave 7, key on; the flute patch at
    // full volume.
    s.write(0x9010, 0x10);
    s.write(0x9030, 0xff);
    s.write(0x9010, 0x30);
    s.write(0x9030, 0x40);
    s.write(0x9010, 0x20);
    s.write(0x9030, 0x1f);
    let mut heard = false;
    for _ in 0..36 * 200 {
        s.tick();
        if s.output() != 16383 {
            heard = true;
        }
    }
    assert!(heard);
    // Holding the chip in reset silences it again.
    s.write(0xe000, 0x40);
    assert_eq!(s.output(), 16383);
}

#[test]
fn vrc7_sample_through_board() {
    let mut m = Vrc7::new(cart(prg_banks(8), chr_banks(16), 85), Vrc7Variant::Vrc7a);
    assert_eq!(m.get_sample(), Some(16383));
    m.write(BusKind::Cpu, 0xe000, 0x80);
    m.tick();
    assert_eq!(m.get_sample(), Some(16383));
}

#[test]
fn rc_mapper_forwards_writes_and_lines() {
    let mut m = ines(cart(prg_banks(8), vec![], 2));
    assert_eq!(m.peek(BusKind::Cpu, 0x8000), 0);
    m.write(BusKind::Cpu, 0x8000, 1);
    assert_eq!(m.peek(BusKind::Cpu, 0x8000), 2);
    assert_eq!(m.read(BusKind::Cpu, 0x8000), 2);
    assert_eq!(m.peek(BusKind::Cpu, 0xc000), 6);
    m.tick();
    assert!(!m.get_irq());
    assert_eq!(m.get_sample(), None);
    assert!(m.save_wram().is_none());
}

#[test]
fn ines_boards_come_up_in_power_on_state() {
    // UxROM: bank 0 at $8000, the last bank fixed at $C000.
    let m = ines(cart(prg_banks(8), Vec::new(), 2));
    assert_eq!(m.peek(BusKind::Cpu, 0x8000), 0);
    assert_eq!(m.peek(BusKind::Cpu, 0xa000), 1);
    assert_eq!(m.peek(BusKind::Cpu, 0xc000), 6);
    assert_eq!(m.peek(BusKind::Cpu, 0xe000), 7);
    // MMC1: the last 16 KiB bank fixed at $C000.
    let m = ines(cart(prg_banks(16), chr_banks(8), 1));
    assert_eq!(m.peek(BusKind::Cpu, 0xc000), 14);
    assert_eq!(m.peek(BusKind::Cpu, 0xe000), 15);
}
