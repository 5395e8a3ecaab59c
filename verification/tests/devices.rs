use nes::bus::{Address, AddressBus, AndAndMask, AndEqualsAndMask, DeviceKind, NotAndMask, RangeAndMask};
use nes::input::{Controller, Input, InputDevice, InputSource, SimpleInput, UserInput};
use nes::mapper::SaveWram;
use nes::memory::{FixedMemoryBlock, Memory, MemoryBlock, RomBlock};
use nes::ppu_step::{generate_steps, BackgroundStep, SpriteStep, StateChange};
use nes::region::Region;
use nes::ring_buf::RingBuf;
use nes::run_until::{or, Cycles, Frames, RunUntil, Samples};

#[test]
fn ring_buf_push_pop_in_order() {
    let mut rb = RingBuf::new(4, 0i16);
    assert_eq!(rb.pop(), None);
    rb.push(1);
    rb.push(2);
    rb.push(3);
    assert_eq!(rb.pop(), Some(1));
    assert_eq!(rb.pop(), Some(2));
    assert_eq!(rb.pop(), Some(3));
    assert_eq!(rb.pop(), None);
}

#[test]
fn ring_buf_full_drops_oldest() {
    let mut rb = RingBuf::new(4, 0u8);
    for i in 1..=5u8 {
        rb.push(i);
    }
    // Capacity 4 holds three items.
    assert_eq!(rb.iter(), vec![3, 4, 5]);
    assert_eq!(rb.pop(), None);
}

#[test]
fn ring_buf_iterators() {
    let mut rb = RingBuf::new(8, 0u32);
    for i in 10..14u32 {
        rb.push(i);
    }
    let mut peek = rb.iter_ref();
    assert_eq!(peek.len(), 4);
    assert_eq!(peek.next(), Some(10));
    assert_eq!(peek.next_back(), Some(13));
    assert_eq!(peek.next(), Some(11));
    assert_eq!(peek.next(), Some(12));
    assert_eq!(peek.next(), None);
    let mut taken = rb.take_iter();
    assert_eq!(taken.next_back(), Some(13));
    assert_eq!(taken.next(), Some(10));
    assert_eq!(rb.pop(), None);
}

#[test]
fn run_until_counts_down() {
    let mut c = Cycles(2);
    assert!(!c.done());
    c.add_cycle();
    c.add_sample();
    assert!(!c.done());
    c.add_cycle();
    assert!(c.done());
    c.add_cycle();
    assert_eq!(c, Cycles(0));

    let mut both = or(Frames(1), Samples(3));
    both.add_sample();
    assert!(!both.done());
    both.add_frame();
    assert!(both.done());
}

#[test]
fn region_constants() {
    assert_eq!(Region::default(), Region::Ntsc);
    assert_eq!(Region::Ntsc.vblank_line(), 240);
    assert_eq!(Region::Pal.vblank_line(), 239);
    assert_eq!(Region::Ntsc.prerender_line(), 261);
    assert_eq!(Region::Pal.prerender_line(), 311);
    assert!(Region::Ntsc.uneven_frames());
    assert!(!Region::Pal.uneven_frames());
    assert_eq!(Region::Ntsc.four_step_seq(), [7457, 14913, 22371, 29829, 29830]);
    assert_eq!(Region::Pal.five_step_seq(), [8313, 16627, 24939, 41565, 41566]);
    assert_eq!(Region::Ntsc.noise_rates()[0], 4);
    assert_eq!(Region::Pal.dmc_rates()[15], 50);
}

#[test]
fn controller_shifts_buttons_a_first() {
    let mut input = Input::new();
    let mut source = SimpleInput::new();
    let mut pad = Controller::new();
    pad.a = true;
    pad.start = true;
    pad.right = true;
    source.handle_input(UserInput::PlayerOne(pad));
    input.write(0x4016, 1);
    input.tick(&mut source);
    input.tick(&mut source);
    input.write(0x4016, 0);
    let mut bits = Vec::new();
    for _ in 0..8 {
        bits.push(input.read(0x4016, 0) & 1);
    }
    assert_eq!(bits, vec![1, 0, 0, 1, 0, 0, 0, 1]);
    // Exhausted ports read 1; bits 5..7 come from the open bus.
    assert_eq!(input.read(0x4016, 0xe0), 0xe1);
    // Player two pressed nothing.
    assert_eq!(input.read(0x4017, 0), 0);
}

#[test]
fn memory_block_wraps_addresses() {
    let mut m = MemoryBlock::new(2);
    assert_eq!(m.len(), 2048);
    m.write(5, 0x42);
    assert_eq!(m.read(5), 0x42);
    assert_eq!(m.read(2048 + 5), 0x42);
    m.write(4096 + 7, 9);
    assert_eq!(m.read(7), 9);
    let saved = m.save_wram().unwrap().to_bytes();
    assert_eq!(saved.len(), 2048);
    assert_eq!(saved[5], 0x42);

    let mut f: FixedMemoryBlock<2> = FixedMemoryBlock::new();
    f.write(0x0801, 3);
    assert_eq!(f.read(0x0001), 3);
    f.restore_wram(SaveWram::from_bytes(vec![1, 2]));
    assert_eq!(f.read(0), 1);
    assert_eq!(f.read(1), 2);
    assert_eq!(f.read(2), 0);
}

#[test]
fn rom_block_ignores_writes() {
    let mut r = RomBlock::new(vec![1, 2, 3, 4]);
    r.write(1, 0xff);
    assert_eq!(r.read(1), 2);
    assert_eq!(r.read(6), 3);
    assert_eq!(r.read_mapped(1, 2, 0x8001), 4);
}

#[test]
fn bus_resolves_first_reader_and_all_writers() {
    let mut bus = AddressBus::new(0, 0xffff);
    bus.register_read(DeviceKind::Apu, Address(0x4015).into());
    bus.register_read(DeviceKind::CpuRam, NotAndMask(0x1fff).into());
    bus.register_read(DeviceKind::Ppu, AndEqualsAndMask(0xe000, 0x2000, 0x2007).into());
    bus.register_read(DeviceKind::Mapper, AndAndMask(0x8000, 0xffff).into());
    bus.register_read(DeviceKind::Input, RangeAndMask(0x4016, 0x4018, 0xffff).into());
    bus.register_write(DeviceKind::Mapper, AndAndMask(0x8000, 0xffff).into());
    bus.register_write(DeviceKind::Debug, AndAndMask(0x8000, 0x00ff).into());

    assert_eq!(bus.read_addr(0x4015), Some((0x4015, DeviceKind::Apu)));
    assert_eq!(bus.read_addr(0x0801), Some((0x0801, DeviceKind::CpuRam)));
    assert_eq!(bus.read_addr(0x2009), Some((0x2001, DeviceKind::Ppu)));
    assert_eq!(bus.read_addr(0x8123), Some((0x8123, DeviceKind::Mapper)));
    assert_eq!(bus.read_addr(0x4017), Some((0x4017, DeviceKind::Input)));
    assert_eq!(bus.read_addr(0x4018), None);
    assert_eq!(
        bus.write_addrs(0x9234),
        vec![(0x9234, DeviceKind::Mapper), (0x34, DeviceKind::Debug)]
    );
    assert_eq!(bus.write_addrs(0x1234), vec![]);
}

#[test]
fn bus_blocks_drop_low_bits() {
    let mut bus = AddressBus::new(3, 0xfff8);
    bus.register_read(DeviceKind::Ppu, Address(0x2008).into());
    assert_eq!(bus.read_addr(0x200f), Some((0x2008, DeviceKind::Ppu)));
    assert_eq!(bus.read_addr(0x2007), None);
}

#[test]
fn ppu_schedule_for_ntsc_frame() {
    let mut steps = generate_steps(Region::Ntsc);
    let first = steps.step();
    assert_eq!(first.scanline, 0);
    assert_eq!(first.dot, 0);
    assert_eq!(first.sprite, Some(SpriteStep::Reset));
    let second = steps.step();
    assert_eq!(second.dot, 1);
    assert_eq!(second.background, Some(BackgroundStep::Nametable));
    assert_eq!(second.sprite, Some(SpriteStep::Clear));
    let mut set_vblank = None;
    let mut count: u32 = 2;
    loop {
        let s = steps.step();
        count += 1;
        if s.state == Some(StateChange::SetVblank) {
            set_vblank = Some((s.scanline, s.dot));
        }
        if s.scanline == 261 && s.dot == 340 {
            assert_eq!(s.state, Some(StateChange::SkippedTick));
            break;
        }
    }
    assert_eq!(set_vblank, Some((241, 1)));
    assert_eq!(count, 262 * 341);
    // The schedule wraps to the start of the next frame.
    let again = steps.step();
    assert_eq!((again.scanline, again.dot), (0, 0));
}

#[test]
fn input_latches_the_source_pads() {
    let mut src = SimpleInput::new();
    let mut pad = Controller::new();
    pad.a = true;
    pad.start = true;
    src.handle_input(UserInput::PlayerOne(pad));
    let mut input = Input::new();
    input.write(0x4016, 1);
    input.tick(&mut src);
    input.tick(&mut src);
    input.write(0x4016, 0);
    let expected = pad.to_byte();
    for k in 0..8 {
        assert_eq!(input.read(0x4016, 0), (expected >> k) & 1);
    }
    assert_eq!(input.read(0x4016, 0), 1);
    assert_eq!(src.strobe().0.to_byte(), expected);
}

#[test]
fn ring_buf_without_slots_stays_empty() {
    let mut rb = RingBuf::new(0, 0u8);
    assert_eq!(rb.pop(), None);
    assert_eq!(rb.iter(), Vec::<u8>::new());
    let mut it = rb.take_iter();
    assert_eq!(it.len(), 0);
    assert_eq!(it.next(), None);
    assert_eq!(it.next_back(), None);
}

#[test]
fn ppu_schedule_repeats_every_frame() {
    let mut steps = generate_steps(Region::Pal);
    let n = 312 * 341;
    let mut first = Vec::new();
    for _ in 0..n {
        first.push(steps.step());
    }
    for k in 0..(2 * n + 7) {
        let s = steps.step();
        assert_eq!(s, first[k % n]);
    }
}

#[test]
fn input_samples_the_source_once_per_strobe() {
    let mut src = SimpleInput::new();
    let mut pad = Controller::new();
    pad.b = true;
    src.handle_input(UserInput::PlayerOne(pad));
    let mut input = Input::new();
    input.write(0x4016, 1);
    input.tick(&mut src);
    input.tick(&mut src);
    // A later change of the pad is not sampled while the strobe stays high.
    let mut other = Controller::new();
    other.select = true;
    src.handle_input(UserInput::PlayerOne(other));
    for _ in 0..6 {
        input.tick(&mut src);
    }
    input.write(0x4016, 0);
    let expected = pad.to_byte();
    for k in 0..8 {
        assert_eq!(input.read(0x4016, 0), (expected >> k) & 1);
    }
}

#[test]
fn run_until_counts_only_its_own_events() {
    let mut s = Samples(2);
    s.add_cycle();
    s.add_dot();
    s.add_frame();
    s.add_scanline();
    s.add_instruction();
    assert!(!s.done());
    s.add_sample();
    assert!(!s.done());
    s.add_sample();
    assert!(s.done());
    let mut both = or(Frames(1), Cycles(3));
    both.add_cycle();
    assert!(!both.done());
    both.add_frame();
    assert!(both.done());
}
