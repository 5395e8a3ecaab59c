use nes::apu::{length_load_value, Apu, ApuLevels, ChannelPlayback, I16LutMixer, SampleMixer, PULSE_TABLE, TND_TABLE};
use nes::apu::ApuSnapshot;
use nes::channel::dmc::Dmc;
use nes::cpu::dma::DmcDmaKind;
use nes::channel::pulse::{Pulse, PulseChannel};
use nes::channel::triangle::Triangle;
use nes::channel::Channel;
use nes::region::Region;
use nes::run_until::Cycles;

#[test]
fn length_table_values() {
    assert_eq!(length_load_value(0), 10);
    assert_eq!(length_load_value(1), 254);
    assert_eq!(length_load_value(0x10), 12);
    assert_eq!(length_load_value(31), 30);
}

#[test]
fn status_starts_clear_and_keeps_open_bus_bit_5() {
    let apu = Apu::new(Region::Ntsc);
    assert_eq!(apu.peek(0x4015, 0x00), 0x00);
    assert_eq!(apu.peek(0x4015, 0xff), 0x20);
    assert_eq!(apu.peek(0x4000, 0x5a), 0x5a);
    assert!(!apu.get_irq());
}

#[test]
fn enabled_channel_with_length_reports_active() {
    let mut apu = Apu::new(Region::Ntsc);
    apu.write(0x4015, 0x01);
    apu.pulse_one.write(3, 0x08);
    assert_eq!(apu.peek(0x4015, 0), 0x01);
    // A disabled channel ignores the length load.
    apu.pulse_two.write(3, 0x08);
    assert_eq!(apu.peek(0x4015, 0), 0x01);
    // Disabling clears the counter.
    apu.write(0x4015, 0x00);
    assert_eq!(apu.peek(0x4015, 0), 0x00);
}

#[test]
fn four_step_sequence_raises_frame_irq() {
    let mut apu = Apu::new(Region::Ntsc);
    let mut until = Cycles(0);
    // The sequencer starts six cycles in; the IRQ comes one cycle before
    // the fourth step.
    for _ in 0..29821 {
        apu.tick(&mut until, 0);
    }
    assert!(!apu.get_irq());
    apu.tick(&mut until, 0);
    assert!(apu.get_irq());
    assert_eq!(apu.read(0x4015, 0) & 0x40, 0x40);
    assert!(!apu.get_irq());
}

#[test]
fn irq_inhibit_keeps_the_line_low() {
    let mut apu = Apu::new(Region::Ntsc);
    apu.write(0x4017, 0x40);
    let mut until = Cycles(0);
    for _ in 0..40000 {
        apu.tick(&mut until, 0);
    }
    assert!(!apu.get_irq());
    assert_eq!(apu.peek(0x4015, 0), 0);
}

#[test]
fn five_step_sequence_never_raises_frame_irq() {
    let mut apu = Apu::new(Region::Pal);
    apu.write(0x4017, 0x80);
    let mut until = Cycles(0);
    for _ in 0..50000 {
        apu.tick(&mut until, 0);
    }
    assert!(!apu.get_irq());
}

#[test]
fn quarter_frame_at_first_step() {
    let mut apu = Apu::new(Region::Ntsc);
    let mut until = Cycles(0);
    for _ in 0..7450 {
        apu.tick(&mut until, 0);
    }
    assert!(!apu.is_quarter_frame());
    apu.tick(&mut until, 0);
    assert!(apu.is_quarter_frame());
    assert!(!apu.is_half_frame());
}

#[test]
fn oam_request_is_taken_once() {
    let mut apu = Apu::new(Region::Ntsc);
    assert_eq!(apu.get_oam_req(), None);
    apu.write(0x4014, 0x02);
    assert_eq!(apu.get_oam_req(), Some(0x02));
    assert_eq!(apu.get_oam_req(), None);
}

#[test]
fn muted_and_soloed_levels() {
    let mut apu = Apu::new(Region::Ntsc);
    let mut until = Cycles(0);
    let mut pb = ChannelPlayback::new();
    pb.ext_mute = true;
    apu.set_channel_playback(pb);
    let l = apu.tick(&mut until, 1234);
    assert_eq!(l.ext, 0);

    let mut pb = ChannelPlayback::new();
    pb.ext_solo = true;
    apu.set_channel_playback(pb);
    let l = apu.tick(&mut until, 1234);
    assert_eq!(
        l,
        ApuLevels { pulse_1: 0, pulse_2: 0, triangle: 0, noise: 0, dmc: 0, ext: 1234 }
    );

    let pb = ChannelPlayback::new();
    apu.set_channel_playback(pb);
    let l = apu.tick(&mut until, -5);
    assert_eq!(l.ext, -5);
}

#[test]
fn playback_switches() {
    let mut pb = ChannelPlayback::new();
    assert_eq!(pb.pulse_1(7), 7);
    pb.triangle_solo = true;
    assert_eq!(pb.pulse_1(7), 0);
    assert_eq!(pb.triangle(9), 9);
    pb.triangle_mute = true;
    assert_eq!(pb.triangle(9), 0);
}

#[test]
fn ticks_queue_mixed_samples() {
    let mut apu = Apu::new(Region::Ntsc);
    let mut until = Cycles(0);
    // Silent channels but the triangle, which rests at level 15.
    apu.tick(&mut until, 0);
    apu.tick(&mut until, 1000);
    assert_eq!(apu.samples(), vec![-8371, 1000 - 8371]);
    assert_eq!(apu.samples(), Vec::<i16>::new());
    apu.tick(&mut until, 0);
    let mut it = apu.take_samples();
    assert_eq!(it.next(), Some(-8371));
    assert_eq!(it.next(), None);
}

#[test]
fn lut_mixer_matches_tables() {
    let m = I16LutMixer::default();
    assert_eq!(m.mix(0, 0, 0, 0, 0, 0), 0);
    assert_eq!(m.mix(15, 15, 0, 0, 0, 0), -PULSE_TABLE[30]);
    assert_eq!(m.mix(0, 0, 15, 15, 127, 0), -TND_TABLE[202]);
    assert_eq!(PULSE_TABLE[1], 380);
    assert_eq!(TND_TABLE[1], 220);
    // The difference wraps at the bottom of the i16 range.
    assert_eq!(m.mix(15, 15, 15, 15, 127, -10), (-10i16).wrapping_sub(8438 + 24328));
}

fn frame(half: bool, quarter: bool) -> ApuSnapshot {
    ApuSnapshot { is_half_frame: half, is_quarter_frame: quarter }
}

#[test]
fn silent_pulse_stays_silent_across_calls() {
    let mut p = Pulse::new(PulseChannel::InternalOne);
    p.write(0, 0xbf);
    p.write(1, 0x08);
    p.write(2, 0x40);
    // Register 3 while the channel is off loads nothing.
    p.write(3, 0xf8);
    p.forced_clock();
    for i in 0..64 {
        assert_eq!(p.tick(frame(i % 2 == 0, true)), 0);
    }
    p.enable();
    assert!(!p.get_state());
    for _ in 0..32 {
        assert_eq!(p.tick(frame(true, true)), 0);
    }
    p.disable();
    p.write(3, 0x08);
    assert!(!p.get_state());
    assert_eq!(p.tick(frame(true, true)), 0);
}

#[test]
fn enabled_pulse_starts_on_length_load() {
    let mut p = Pulse::new(PulseChannel::InternalTwo);
    p.enable();
    p.write(3, 0x08);
    assert!(p.get_state());
}

#[test]
fn silent_triangle_holds_its_level_across_calls() {
    let mut t = Triangle::new();
    t.write(0, 0x81);
    t.write(2, 0x00);
    t.write(3, 0xf8);
    t.forced_clock();
    for i in 0..64 {
        assert_eq!(t.tick(frame(i % 3 == 0, true)), 15);
    }
    t.enable();
    t.disable();
    assert!(!t.get_state());
    assert_eq!(t.tick(frame(true, true)), 15);
}

#[test]
fn dmc_irq_flag_follows_register_zero() {
    let mut d = Dmc::new(Region::Ntsc);
    // IRQ on, no loop, a one-byte sample.
    d.write(0, 0x80);
    d.write(3, 0x00);
    d.enable();
    d.dmc_read(0x55);
    assert!(d.get_irq());
    d.write(0, 0x8f);
    assert!(d.get_irq());
    d.write(1, 0x10);
    d.write(2, 0x01);
    assert!(d.get_irq());
    for _ in 0..8 {
        d.tick(frame(false, false));
    }
    assert!(d.get_irq());
    d.write(0, 0x0f);
    assert!(!d.get_irq());
}

#[test]
fn status_write_bit_4_starts_dmc_playback() {
    let mut apu = Apu::new(Region::Ntsc);
    apu.write(0x4015, 0x10);
    // The one-byte sample restarts; a set bit 4 reads back. The buffer
    // counts as full at power-on, so no fetch is requested yet.
    assert_eq!(apu.peek(0x4015, 0) & 0x10, 0x10);
    assert_eq!(apu.get_dmc_req(), None);
    apu.write(0x4015, 0x00);
    assert_eq!(apu.peek(0x4015, 0) & 0x10, 0);
    // A drained buffer makes the enable request the first byte.
    let mut d = Dmc::new(Region::Ntsc);
    d.write(2, 0x01);
    d.write(3, 0x02);
    d.dmc_read(0);
    for _ in 0..2000 {
        d.tick(frame(false, false));
    }
    d.disable();
    let _ = d.get_dmc_req();
    d.enable();
    assert_eq!(d.get_dmc_req(), Some(DmcDmaKind::Load(0xc040)));
}
