use nes::cpu::interrupts::{Interrupts, Triggered};
use nes::cpu::registers::CpuRegs;
use nes::cpu::{CpuPinIn, TickResult};

#[test]
fn status_byte_layout() {
    let mut regs = CpuRegs::new();
    regs.flag_c = true;
    regs.flag_v = true;
    regs.flag_s = true;
    assert_eq!(regs.reg_p(), 0xc1);
}

#[test]
fn status_byte_round_trip() {
    let mut regs = CpuRegs::new();
    regs.set_reg_p(0xff);
    // Bits 4 and 5 are not flags.
    assert_eq!(regs.reg_p(), 0xcf);
    regs.set_reg_p(0x4a);
    assert!(regs.flag_z && regs.flag_d && regs.flag_v);
    assert!(!regs.flag_c && !regs.flag_i && !regs.flag_s);
    assert_eq!(regs.reg_p(), 0x4a);
}

#[test]
fn push_then_pop_returns_value() {
    let mut regs = CpuRegs::new();
    regs.reg_sp = 0xfd;
    assert_eq!(regs.push_stack(0x42), TickResult::Write(0x1fd, 0x42));
    assert_eq!(regs.reg_sp, 0xfc);
    assert_eq!(regs.pop_stack(), TickResult::Read(0x1fd));
    assert_eq!(regs.reg_sp, 0xfd);
}

#[test]
fn stack_wraps_within_page() {
    let mut regs = CpuRegs::new();
    regs.reg_sp = 0x00;
    assert_eq!(regs.push_stack(1), TickResult::Write(0x100, 1));
    assert_eq!(regs.reg_sp, 0xff);
}

#[test]
fn fetch_advances_pc() {
    let mut regs = CpuRegs::new();
    regs.reg_pc = 0x8000;
    assert_eq!(regs.fetch_pc(), TickResult::Fetch(0x8000));
    assert_eq!(regs.read_pc(), TickResult::Read(0x8001));
    assert_eq!(regs.reg_pc, 0x8002);
}

#[test]
fn zero_and_sign_flags() {
    let mut regs = CpuRegs::new();
    regs.set_flags_zs(0);
    assert!(regs.flag_z && !regs.flag_s);
    regs.set_flags_zs(0x80);
    assert!(!regs.flag_z && regs.flag_s);
}

#[test]
fn vectors() {
    assert_eq!(Triggered::Nmi.vector(), 0xfffa);
    assert_eq!(Triggered::Reset.vector(), 0xfffc);
    assert_eq!(Triggered::Power.vector(), 0xfffc);
    assert_eq!(Triggered::Irq.vector(), 0xfffe);
}

#[test]
fn irq_sequence_pushes_and_jumps() {
    let mut ints = Interrupts::new();
    let mut regs = CpuRegs::new();
    regs.reg_pc = 0x1234;
    regs.reg_sp = 0xfd;
    let mut pin = CpuPinIn::new();
    pin.irq = true;
    ints.tick(&pin);
    ints.poll(&regs);
    assert_eq!(ints.interrupt(&pin, &mut regs), Some(TickResult::Read(0x1234)));
    assert_eq!(ints.interrupt(&pin, &mut regs), Some(TickResult::Read(0x1234)));
    assert_eq!(ints.interrupt(&pin, &mut regs), Some(TickResult::Write(0x1fd, 0x12)));
    assert_eq!(ints.interrupt(&pin, &mut regs), Some(TickResult::Write(0x1fc, 0x34)));
    assert_eq!(ints.interrupt(&pin, &mut regs), Some(TickResult::Write(0x1fb, 0x20)));
    assert_eq!(ints.interrupt(&pin, &mut regs), Some(TickResult::Read(0xfffe)));
    pin.data = 0x78;
    assert_eq!(ints.interrupt(&pin, &mut regs), Some(TickResult::Read(0xffff)));
    pin.data = 0x56;
    assert_eq!(ints.interrupt(&pin, &mut regs), None);
    assert_eq!(regs.reg_pc, 0x5678);
    assert!(regs.flag_i);
    assert_eq!(regs.reg_sp, 0xfa);
}

#[test]
fn masked_irq_is_not_taken() {
    let mut ints = Interrupts::new();
    let mut regs = CpuRegs::new();
    regs.flag_i = true;
    let mut pin = CpuPinIn::new();
    pin.irq = true;
    ints.tick(&pin);
    ints.poll(&regs);
    assert_eq!(ints.triggered(), None);
    assert_eq!(ints.interrupt(&pin, &mut regs), None);
}

#[test]
fn nmi_needs_an_edge() {
    let mut ints = Interrupts::new();
    let regs = CpuRegs::new();
    let mut pin = CpuPinIn::new();
    pin.nmi = true;
    ints.tick(&pin);
    ints.poll(&regs);
    assert_eq!(ints.triggered(), Some(Triggered::Nmi));
    // Held high: no new edge.
    ints.tick(&pin);
    ints.poll(&regs);
    assert_eq!(ints.triggered(), None);
}

#[test]
fn nmi_outranks_irq() {
    let mut ints = Interrupts::new();
    let regs = CpuRegs::new();
    let mut pin = CpuPinIn::new();
    pin.nmi = true;
    pin.irq = true;
    ints.tick(&pin);
    ints.poll(&regs);
    assert_eq!(ints.triggered(), Some(Triggered::Nmi));
}

#[test]
fn alu_adc_sets_carry_and_overflow() {
    let mut r = CpuRegs::new();
    r.reg_a = 0x50;
    r.flag_c = false;
    r.adc(0x50);
    assert_eq!(r.reg_a, 0xa0);
    assert!(r.flag_v && !r.flag_c && r.flag_s && !r.flag_z);
    r.reg_a = 0xff;
    r.flag_c = true;
    r.adc(0x00);
    assert_eq!(r.reg_a, 0x00);
    assert!(r.flag_c && !r.flag_v && r.flag_z);
}

#[test]
fn alu_sbc_borrows() {
    let mut r = CpuRegs::new();
    r.reg_a = 0x50;
    r.flag_c = true;
    r.sbc(0xf0);
    assert_eq!(r.reg_a, 0x60);
    assert!(!r.flag_c && !r.flag_v);
    r.reg_a = 0x80;
    r.flag_c = true;
    r.sbc(0x01);
    assert_eq!(r.reg_a, 0x7f);
    assert!(r.flag_c && r.flag_v);
}

#[test]
fn alu_shifts_and_compare() {
    let mut r = CpuRegs::new();
    r.flag_c = true;
    assert_eq!(r.rol(0x80), 0x01);
    assert!(r.flag_c);
    assert_eq!(r.ror(0x02), 0x81);
    assert!(!r.flag_c && r.flag_s);
    assert_eq!(r.asl(0xc0), 0x80);
    assert!(r.flag_c);
    assert_eq!(r.lsr(0x01), 0x00);
    assert!(r.flag_c && r.flag_z);
    r.compare(0x10, 0x20);
    assert!(!r.flag_c && r.flag_s && !r.flag_z);
    r.reg_a = 0x0f;
    r.bit(0xc0);
    assert!(r.flag_v && r.flag_s && r.flag_z);
}

#[test]
fn nmi_once_per_rising_edge() {
    let mut ints = Interrupts::new();
    let regs = CpuRegs::new();
    let mut pin = CpuPinIn::new();
    pin.nmi = true;
    for _ in 0..5 {
        ints.tick(&pin);
    }
    ints.poll(&regs);
    assert_eq!(ints.triggered(), Some(Triggered::Nmi));
    for _ in 0..100 {
        ints.tick(&pin);
    }
    ints.poll(&regs);
    assert_eq!(ints.triggered(), None);
    // Low, then high again: a new edge.
    pin.nmi = false;
    ints.tick(&pin);
    pin.nmi = true;
    ints.tick(&pin);
    ints.poll(&regs);
    assert_eq!(ints.triggered(), Some(Triggered::Nmi));
}
