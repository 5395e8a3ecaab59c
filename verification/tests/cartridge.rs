use nes::bus::BusKind;
use nes::cartridge::{CartMirroring, Cartridge, CartridgeError, CartridgeInfo};
use nes::mapper::{Mapper, Nametable, SaveWram};
use nes::memory::Memory;

fn ines_image(h4: u8, h5: u8, h6: u8, h7: u8, h8: u8, h10: u8, body: usize) -> Vec<u8> {
    let mut v = vec![0x4e, 0x45, 0x53, 0x1a, h4, h5, h6, h7, h8, 0, h10, 0, 0, 0, 0, 0];
    for i in 0..body {
        v.push((i % 251) as u8);
    }
    v
}

#[test]
fn ines_nrom_parses_sizes_and_mirroring() {
    let file = ines_image(2, 1, 0x01, 0x00, 0, 0, 0x8000 + 0x2000);
    let cart = Cartridge::load(&file, None, None, b"game.nes").ok().unwrap();
    assert_eq!(cart.info(), CartridgeInfo::Cartridge);
    match cart {
        Cartridge::INes(c) => {
            assert_eq!(c.prg_rom.len(), 0x8000);
            assert_eq!(c.chr_rom.len(), 0x2000);
            assert_eq!(c.chr_ram_bytes, 0);
            assert_eq!(c.prg_ram_bytes, 0);
            assert_eq!(c.mapper, 0);
            assert_eq!(c.submapper, None);
            assert_eq!(c.mirroring, CartMirroring::Vertical);
            assert!(!c.battery);
            assert!(!c.alternative_mirroring);
            assert_eq!(c.prg_rom.read(0), 0);
            assert_eq!(c.prg_rom.read(300), (300 % 251) as u8);
            assert_eq!(c.chr_rom.read(0), (0x8000 % 251) as u8);
        }
        Cartridge::Fds(_) => panic!("expected a cartridge"),
    }
}

#[test]
fn ines_mapper_number_and_battery_ram() {
    let file = ines_image(1, 0, 0x12, 0x40, 0, 0, 0x4000);
    let cart = Cartridge::load(&file, Some(SaveWram::from_bytes(vec![7; 4])), None, b"x.nes")
        .ok()
        .unwrap();
    match cart {
        Cartridge::INes(c) => {
            assert_eq!(c.mapper, 0x41);
            assert!(c.battery);
            assert_eq!(c.prg_ram_bytes, 8 * 1024);
            assert_eq!(c.chr_ram_bytes, 0x2000);
            assert_eq!(c.mirroring, CartMirroring::Horizontal);
            assert_eq!(c.wram.unwrap().to_bytes(), vec![7; 4]);
        }
        Cartridge::Fds(_) => panic!("expected a cartridge"),
    }
}

#[test]
fn ines_without_battery_drops_saved_ram() {
    let file = ines_image(1, 1, 0x00, 0x00, 0, 0, 0x4000 + 0x2000);
    let cart = Cartridge::load(&file, Some(SaveWram::from_bytes(vec![1, 2])), None, b"x.nes")
        .ok()
        .unwrap();
    match cart {
        Cartridge::INes(c) => assert!(c.wram.is_none()),
        Cartridge::Fds(_) => panic!("expected a cartridge"),
    }
}

#[test]
fn nes2_header_extends_mapper_and_ram() {
    // NES 2.0: mapper high nibble and submapper in byte 8, ram sizes in 10/11.
    let file = ines_image(1, 0, 0x40, 0x08, 0x21, 0x07, 0x4000);
    let cart = Cartridge::load(&file, None, None, b"x.nes").ok().unwrap();
    match cart {
        Cartridge::INes(c) => {
            assert_eq!(c.mapper, 0x104);
            assert_eq!(c.submapper, Some(2));
            assert_eq!(c.prg_ram_bytes, 64 << 7);
            assert_eq!(c.chr_ram_bytes, 0);
        }
        Cartridge::Fds(_) => panic!("expected a cartridge"),
    }
}

#[test]
fn ines_trainer_is_skipped() {
    let mut file = ines_image(1, 1, 0x04, 0x00, 0, 0, 0);
    for _ in 0..512 {
        file.push(0xee);
    }
    for i in 0..0x6000 {
        file.push((i % 7) as u8);
    }
    let cart = Cartridge::load(&file, None, None, b"x.nes").ok().unwrap();
    match cart {
        Cartridge::INes(c) => {
            assert_eq!(c.prg_rom.read(0), 0);
            assert_eq!(c.prg_rom.read(1), 1);
            assert_eq!(c.chr_rom.read(0), (0x4000 % 7) as u8);
        }
        Cartridge::Fds(_) => panic!("expected a cartridge"),
    }
}

#[test]
fn truncated_ines_is_an_io_error() {
    let file = ines_image(2, 1, 0, 0, 0, 0, 100);
    assert!(matches!(Cartridge::load(&file, None, None, b"x.nes"), Err(CartridgeError::IoError)));
    assert!(matches!(Cartridge::load(&[0x4e, 0x45], None, None, b"x.nes"), Err(CartridgeError::IoError)));
}

#[test]
fn unknown_and_unif_files() {
    let junk = vec![1u8, 2, 3, 4, 5, 6];
    assert!(matches!(Cartridge::load(&junk, None, None, b"a.bin"), Err(CartridgeError::InvalidFileType)));
    let unif = vec![0x55u8, 0x4e, 0x49, 0x46, 0, 0];
    assert!(matches!(Cartridge::load(&unif, None, None, b"a.unf"), Err(CartridgeError::NotSupported)));
}

#[test]
fn fds_without_bios_asks_for_it() {
    let disk = vec![0x46u8, 0x44, 0x53, 0x1a, 1, 0, 0, 0, 0, 0, 0, 0, 0, 0, 0, 0];
    match Cartridge::load(&disk, None, None, b"a.fds") {
        Err(CartridgeError::BiosRequired(name)) => assert_eq!(name, "disksys.rom"),
        _ => panic!("expected a missing bios"),
    }
    // The extension alone marks a disk image, in any case.
    let raw = vec![0u8; 8];
    assert!(matches!(Cartridge::load(&raw, None, None, b"A.FdS"), Err(CartridgeError::BiosRequired(_))));
}

fn fds_side() -> Vec<u8> {
    let mut side = vec![0u8; 65500];
    side[0] = 1;
    side[56] = 2;
    side[58] = 3;
    side[74] = 4;
    side
}

#[test]
fn fds_image_splits_into_sides() {
    let mut disk = vec![0x46u8, 0x44, 0x53, 0x1a, 2, 0, 0, 0, 0, 0, 0, 0, 0, 0, 0, 0];
    disk.extend(fds_side());
    disk.extend(fds_side());
    let bios = vec![0xaau8; 0x2000];
    let cart = Cartridge::load(&disk, None, Some(&bios), b"a.fds").ok().unwrap();
    assert_eq!(cart.info(), CartridgeInfo::Fds { total_sides: 2 });
    match &cart {
        Cartridge::Fds(f) => {
            assert_eq!(f.bios.len(), 0x2000);
            assert_eq!(f.disk_sides[0].len(), 65500);
            // Gap, then the block with its start mark.
            assert_eq!(f.disk_sides[0][28300 / 8], 0x80);
            assert_eq!(f.disk_sides[0][28300 / 8 + 1], 1);
        }
        Cartridge::INes(_) => panic!("expected a disk"),
    }
    let m = cart.build_mapper();
    assert_eq!(m.peek(BusKind::Cpu, 0xe000), 0xaa);
}

#[test]
fn short_bios_is_an_io_error() {
    let disk = fds_side();
    let bios = vec![0u8; 100];
    assert!(matches!(Cartridge::load(&disk, None, Some(&bios), b"a.fds"), Err(CartridgeError::IoError)));
}

#[test]
fn built_nrom_reads_program_rom() {
    let file = ines_image(1, 1, 0x00, 0x00, 0, 0, 0x4000 + 0x2000);
    let cart = Cartridge::load(&file, None, None, b"x.nes").ok().unwrap();
    let m = cart.build_mapper();
    assert_eq!(m.peek(BusKind::Cpu, 0x8000), 0);
    assert_eq!(m.peek(BusKind::Cpu, 0xc005), 5);
    assert_eq!(m.peek(BusKind::Ppu, 0x0003), (0x4003 % 251) as u8);
}

#[test]
fn cart_mirroring_selects_pages() {
    assert_eq!(CartMirroring::Horizontal.ppu_fetch(0x2000), Nametable::InternalB);
    assert_eq!(CartMirroring::Horizontal.ppu_fetch(0x2800), Nametable::InternalA);
    assert_eq!(CartMirroring::Vertical.ppu_fetch(0x2400), Nametable::InternalA);
    assert_eq!(CartMirroring::Vertical.ppu_fetch(0x2800), Nametable::InternalB);
    assert_eq!(CartMirroring::Vertical.ppu_fetch(0x1000), Nametable::External);
}

#[test]
fn fds_sides_valid_accepts_closed_chain_and_refuses_overrun() {
    let mut disk = vec![0u8; 65500];
    disk[0] = 1;
    disk[56] = 2;
    assert!(nes::cartridge::fds_sides_valid(&disk));
    let mut overrun = vec![0u8; 60];
    overrun[0] = 1;
    overrun[56] = 3;
    assert!(!nes::cartridge::fds_sides_valid(&overrun));
    assert!(!nes::cartridge::fds_sides_valid(&[0x46, 0x44, 0x53, 0x1a, 0, 0]));
}
