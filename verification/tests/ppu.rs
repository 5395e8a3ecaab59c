use nes::cartridge::{CartMirroring, INes};
use nes::mapper::ines;
use nes::memory::RomBlock;
use nes::ppu::{FrameEnd, Ppu};
use nes::region::Region;
use nes::run_until::Dots;

fn nrom_ppu() -> Ppu {
    let cart = INes {
        chr_ram_bytes: 0,
        prg_ram_bytes: 0x2000,
        prg_rom: RomBlock::new(vec![0u8; 0x8000]),
        chr_rom: RomBlock::new((0..0x2000).map(|i| i as u8).collect()),
        mirroring: CartMirroring::Vertical,
        alternative_mirroring: false,
        mapper: 0,
        submapper: None,
        wram: None,
        battery: false,
    };
    Ppu::new(Region::Ntsc, ines(cart))
}

fn set_address(ppu: &mut Ppu, addr: u16) {
    ppu.write(0x2006, (addr >> 8) as u8);
    ppu.write(0x2006, addr as u8);
}

fn tick(ppu: &mut Ppu) {
    let mut until = Dots(u32::MAX);
    ppu.tick(FrameEnd::SetVblank, &mut until);
}

/// A $2007 write far enough from the last one not to count as a
/// read-modify-write.
fn write_data(ppu: &mut Ppu, value: u8) {
    for _ in 0..4 {
        tick(ppu);
    }
    ppu.write(0x2007, value);
}

#[test]
fn ppu_status_starts_clear() {
    let mut ppu = nrom_ppu();
    assert_eq!(ppu.read(0x2002), 0);
    assert!(!ppu.nmi());
    assert_eq!(ppu.frame(), 0);
    assert_eq!(ppu.screen().len(), 256 * 240);
}

#[test]
fn ppu_status_read_carries_open_bus_low_bits() {
    let mut ppu = nrom_ppu();
    ppu.write(0x2003, 0x1f);
    assert_eq!(ppu.peek(0x2002), 0x1f);
    assert_eq!(ppu.read(0x2002), 0x1f);
    assert_eq!(ppu.read(0x2000), 0x1f);
}

#[test]
fn ppu_data_read_is_buffered() {
    let mut ppu = nrom_ppu();
    set_address(&mut ppu, 0x2000);
    write_data(&mut ppu, 0x55);
    write_data(&mut ppu, 0x66);
    set_address(&mut ppu, 0x2000);
    assert_eq!(ppu.read(0x2007), 0x00);
    assert_eq!(ppu.read(0x2007), 0x55);
    assert_eq!(ppu.read(0x2007), 0x66);
}

#[test]
fn ppu_data_increment_32_with_control_bit() {
    let mut ppu = nrom_ppu();
    ppu.write(0x2000, 0x04);
    set_address(&mut ppu, 0x2000);
    write_data(&mut ppu, 0x11);
    write_data(&mut ppu, 0x22);
    ppu.write(0x2000, 0x00);
    set_address(&mut ppu, 0x2020);
    ppu.read(0x2007);
    assert_eq!(ppu.read(0x2007), 0x22);
}

#[test]
fn ppu_palette_mirrors_backdrop() {
    let mut ppu = nrom_ppu();
    set_address(&mut ppu, 0x3f10);
    write_data(&mut ppu, 0x2a);
    set_address(&mut ppu, 0x3f00);
    assert_eq!(ppu.read(0x2007), 0x2a);
    set_address(&mut ppu, 0x3f01);
    assert_eq!(ppu.read(0x2007), 0x0f);
}

#[test]
fn ppu_palette_read_grayscale() {
    let mut ppu = nrom_ppu();
    set_address(&mut ppu, 0x3f05);
    write_data(&mut ppu, 0x2a);
    ppu.write(0x2001, 0x01);
    set_address(&mut ppu, 0x3f05);
    assert_eq!(ppu.read(0x2007), 0x20);
}

#[test]
fn ppu_oam_attribute_byte_drops_bits() {
    let mut ppu = nrom_ppu();
    ppu.write(0x2003, 0x10);
    ppu.write(0x2004, 0xff);
    ppu.write(0x2004, 0xff);
    ppu.write(0x2004, 0xff);
    ppu.write(0x2004, 0xff);
    ppu.write(0x2003, 0x12);
    assert_eq!(ppu.read(0x2004), 0xe3);
    ppu.write(0x2003, 0x13);
    assert_eq!(ppu.read(0x2004), 0xff);
}

#[test]
fn ppu_vblank_raises_nmi_at_line_241() {
    let mut ppu = nrom_ppu();
    ppu.write(0x2000, 0x80);
    let mut ticks = 0u32;
    while !ppu.nmi() {
        tick(&mut ppu);
        ticks += 1;
        assert!(ticks < 262 * 341);
    }
    let state = ppu.debug_state();
    assert_eq!(state.scanline, 241);
    assert_eq!(state.dot, 1);
    assert!(state.vblank);
    assert_eq!(ppu.frame(), 1);
    assert_eq!(ppu.read(0x2002) & 0x80, 0x80);
    assert!(!ppu.nmi());
    assert_eq!(ppu.read(0x2002) & 0x80, 0);
}

#[test]
fn ppu_vblank_clears_on_prerender_line() {
    let mut ppu = nrom_ppu();
    let mut ticks = 0u32;
    while !ppu.debug_state().vblank {
        tick(&mut ppu);
        ticks += 1;
        assert!(ticks < 262 * 341);
    }
    while ppu.debug_state().vblank {
        tick(&mut ppu);
        ticks += 1;
        assert!(ticks < 2 * 262 * 341);
    }
    let state = ppu.debug_state();
    assert_eq!(state.scanline, 261);
    assert_eq!(state.dot, 1);
}

#[test]
fn ppu_tick_counts_dots() {
    let mut ppu = nrom_ppu();
    for _ in 0..1000 {
        tick(&mut ppu);
    }
    assert_eq!(ppu.debug_state().tick, 1000);
}

#[test]
fn ppu_reset_ignores_control_writes() {
    let mut ppu = nrom_ppu();
    ppu.reset();
    ppu.write(0x2000, 0x80);
    ppu.write(0x2003, 0x44);
    let state = ppu.debug_state();
    assert_eq!(state.registers[0], 0);
    assert_eq!(state.registers[3], 0x44);
}

#[test]
fn ppu_power_clears_registers() {
    let mut ppu = nrom_ppu();
    ppu.write(0x2000, 0x83);
    ppu.power();
    let state = ppu.debug_state();
    assert_eq!(state.registers[0], 0);
    assert_eq!(state.registers[1], 0);
}

#[test]
fn ppu_back_to_back_data_writes_step_address_once() {
    let mut ppu = nrom_ppu();
    set_address(&mut ppu, 0x2005);
    write_data(&mut ppu, 0x31);
    ppu.write(0x2007, 0x44);
    set_address(&mut ppu, 0x2005);
    ppu.read(0x2007);
    assert_eq!(ppu.read(0x2007), 0x44);
    assert_eq!(ppu.read(0x2007), 0x00);
}

#[test]
fn ppu_peek_follows_board_mirroring() {
    let mut ppu = nrom_ppu();
    assert_eq!(ppu.ppu_peek(0x0123), 0x23);
    assert_eq!(ppu.ppu_peek(0x4123), 0x23);
    set_address(&mut ppu, 0x2000);
    write_data(&mut ppu, 0x77);
    assert_eq!(ppu.ppu_peek(0x2000), 0x77);
    assert_eq!(ppu.ppu_peek(0x2800), 0x77);
    assert_eq!(ppu.ppu_peek(0x2400), 0x00);
}

#[test]
fn ppu_frames_end_where_asked() {
    let mut ppu = nrom_ppu();
    let mut until = Dots(u32::MAX);
    let mut ticks = 0u32;
    while ppu.frame() == 0 {
        ppu.tick(FrameEnd::ClearVblank, &mut until);
        ticks += 1;
        assert!(ticks < 262 * 341);
    }
    let state = ppu.debug_state();
    assert_eq!(state.scanline, 261);
    assert_eq!(state.dot, 1);
    assert_eq!(ppu.frame(), 1);
    for _ in 0..100 {
        ppu.tick(FrameEnd::Samples(0), &mut until);
    }
    assert_eq!(ppu.frame(), 1);
}

#[test]
fn ppu_idle_screen_shows_backdrop_with_emphasis() {
    let mut ppu = nrom_ppu();
    set_address(&mut ppu, 0x3f00);
    write_data(&mut ppu, 0x21);
    set_address(&mut ppu, 0x2000);
    ppu.write(0x2001, 0x20);
    for _ in 0..262 * 341 {
        tick(&mut ppu);
    }
    assert!(ppu.screen().iter().all(|&p| p == 0x61));
}

#[test]
fn ppu_idle_screen_follows_palette_address() {
    let mut ppu = nrom_ppu();
    set_address(&mut ppu, 0x3f05);
    write_data(&mut ppu, 0x15);
    set_address(&mut ppu, 0x3f05);
    for _ in 0..262 * 341 {
        tick(&mut ppu);
    }
    assert!(ppu.screen().iter().all(|&p| p == 0x15));
}

#[test]
fn ppu_horizontal_scroll_copied_at_dot_257() {
    let mut ppu = nrom_ppu();
    ppu.write(0x2005, 0x28);
    ppu.write(0x2005, 0x00);
    ppu.write(0x2001, 0x08);
    let mut ticks = 0u32;
    loop {
        tick(&mut ppu);
        ticks += 1;
        assert!(ticks < 262 * 341);
        let state = ppu.debug_state();
        if state.scanline == 1 && state.dot == 257 {
            break;
        }
    }
    assert_eq!(ppu.vram_addr & 0x041f, 5);
    assert_eq!(ppu.vram_addr_temp & 0x041f, 5);
}

#[test]
fn ppu_scroll_still_with_rendering_off() {
    let mut ppu = nrom_ppu();
    set_address(&mut ppu, 0x2345);
    for _ in 0..2 * 341 {
        tick(&mut ppu);
    }
    assert_eq!(ppu.vram_addr, 0x2345);
}

#[test]
fn ppu_frame_ends_at_named_dot() {
    let mut ppu = nrom_ppu();
    let mut until = Dots(u32::MAX);
    let mut ticks = 0u32;
    while ppu.frame() == 0 {
        ppu.tick(FrameEnd::Dot(100, 5), &mut until);
        ticks += 1;
        assert!(ticks < 262 * 341);
    }
    let state = ppu.debug_state();
    assert_eq!(state.scanline, 100);
    assert_eq!(state.dot, 5);
    assert_eq!(until.0, u32::MAX - ticks);
}

#[test]
fn ppu_renders_opaque_background_tiles() {
    let cart = INes {
        chr_ram_bytes: 0,
        prg_ram_bytes: 0x2000,
        prg_rom: RomBlock::new(vec![0u8; 0x8000]),
        chr_rom: RomBlock::new(vec![0xffu8; 0x2000]),
        mirroring: CartMirroring::Vertical,
        alternative_mirroring: false,
        mapper: 0,
        submapper: None,
        wram: None,
        battery: false,
    };
    let mut ppu = Ppu::new(Region::Ntsc, ines(cart));
    set_address(&mut ppu, 0x3f03);
    write_data(&mut ppu, 0x16);
    set_address(&mut ppu, 0x2000);
    ppu.write(0x2001, 0x0a);
    for _ in 0..2 * 262 * 341 {
        tick(&mut ppu);
    }
    let screen = ppu.screen();
    assert_eq!(screen[100 * 256 + 100], 0x16);
    assert_eq!(screen[10 * 256 + 3], 0x16);
}
