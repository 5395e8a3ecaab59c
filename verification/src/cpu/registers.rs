//! The 6502 register file and its status-flag byte.
use vstd::prelude::*;

use super::TickResult;

verus! {

#[derive(Debug, Copy, Clone, PartialEq, Eq, Structural)]
pub struct CpuRegs {
    pub reg_a: u8,
    pub reg_x: u8,
    pub reg_y: u8,
    pub reg_pc: u16,
    pub reg_sp: u8,
    pub flag_c: bool,
    pub flag_z: bool,
    pub flag_i: bool,
    pub flag_d: bool,
    pub flag_v: bool,
    pub flag_s: bool,
}

/// The status byte: C Z I D at bits 0..3, V at bit 6, S (negative) at bit 7;
/// bits 4 and 5 read as clear.
pub open spec fn status_byte(c: bool, z: bool, i: bool, d: bool, v: bool, s: bool) -> u8 {
    (if c { 0x01u8 } else { 0u8 }) | (if z { 0x02u8 } else { 0u8 }) | (if i { 0x04u8 } else { 0u8 })
        | (if d { 0x08u8 } else { 0u8 }) | (if v { 0x40u8 } else { 0u8 }) | (if s { 0x80u8 } else { 0u8 })
}

/// The address on the stack page that the stack pointer selects.
pub open spec fn stack_addr(sp: u8) -> u16 {
    (0x100 + sp) as u16
}

impl CpuRegs {
    pub open spec fn spec_reg_p(&self) -> u8 {
        status_byte(self.flag_c, self.flag_z, self.flag_i, self.flag_d, self.flag_v, self.flag_s)
    }

    /// All registers zero, all flags clear.
    pub fn new() -> (r: Self)
        ensures
            r == (CpuRegs {
                reg_a: 0,
                reg_x: 0,
                reg_y: 0,
                reg_pc: 0,
                reg_sp: 0,
                flag_c: false,
                flag_z: false,
                flag_i: false,
                flag_d: false,
                flag_v: false,
                flag_s: false,
            }),
    {
        CpuRegs {
            reg_a: 0,
            reg_x: 0,
            reg_y: 0,
            reg_pc: 0,
            reg_sp: 0,
            flag_c: false,
            flag_z: false,
            flag_i: false,
            flag_d: false,
            flag_v: false,
            flag_s: false,
        }
    }

    pub fn reg_p(&self) -> (r: u8)
        ensures
            r == self.spec_reg_p(),
            (r & 0x01 != 0) == self.flag_c,
            (r & 0x02 != 0) == self.flag_z,
            (r & 0x04 != 0) == self.flag_i,
            (r & 0x08 != 0) == self.flag_d,
            (r & 0x40 != 0) == self.flag_v,
            (r & 0x80 != 0) == self.flag_s,
            r & 0x30 == 0,
    {
        let val: u8 = (if self.flag_c { 0x01u8 } else { 0u8 }) | (if self.flag_z { 0x02u8 } else { 0u8 })
            | (if self.flag_i { 0x04u8 } else { 0u8 }) | (if self.flag_d { 0x08u8 } else { 0u8 })
            | (if self.flag_v { 0x40u8 } else { 0u8 }) | (if self.flag_s { 0x80u8 } else { 0u8 });
        proof {
            lemma_status_byte_bits(
                self.flag_c,
                self.flag_z,
                self.flag_i,
                self.flag_d,
                self.flag_v,
                self.flag_s,
            );
        }
        val
    }

    pub fn set_reg_p(&mut self, value: u8)
        ensures
            final(self).flag_c == (value & 0x01 != 0),
            final(self).flag_z == (value & 0x02 != 0),
            final(self).flag_i == (value & 0x04 != 0),
            final(self).flag_d == (value & 0x08 != 0),
            final(self).flag_v == (value & 0x40 != 0),
            final(self).flag_s == (value & 0x80 != 0),
            final(self).reg_a == old(self).reg_a,
            final(self).reg_x == old(self).reg_x,
            final(self).reg_y == old(self).reg_y,
            final(self).reg_pc == old(self).reg_pc,
            final(self).reg_sp == old(self).reg_sp,
    {
        self.flag_c = value & 0x01 != 0;
        self.flag_z = value & 0x02 != 0;
        self.flag_i = value & 0x04 != 0;
        self.flag_d = value & 0x08 != 0;
        self.flag_v = value & 0x40 != 0;
        self.flag_s = value & 0x80 != 0;
    }

    /// Reads the byte at PC and advances PC.
    pub fn read_pc(&mut self) -> (r: TickResult)
        ensures
            r == TickResult::Read(old(self).reg_pc),
            *final(self) == (CpuRegs { reg_pc: ((old(self).reg_pc + 1) % 0x10000) as u16, ..*old(self) }),
    {
        let pc = self.reg_pc;
        self.reg_pc = pc.wrapping_add(1);
        TickResult::Read(pc)
    }

    /// Fetches the opcode at PC and advances PC.
    pub fn fetch_pc(&mut self) -> (r: TickResult)
        ensures
            r == TickResult::Fetch(old(self).reg_pc),
            *final(self) == (CpuRegs { reg_pc: ((old(self).reg_pc + 1) % 0x10000) as u16, ..*old(self) }),
    {
        let pc = self.reg_pc;
        self.reg_pc = pc.wrapping_add(1);
        TickResult::Fetch(pc)
    }

    /// Increments the stack pointer and reads the stack slot it now selects.
    pub fn pop_stack(&mut self) -> (r: TickResult)
        ensures
            *final(self) == (CpuRegs { reg_sp: ((old(self).reg_sp + 1) % 0x100) as u8, ..*old(self) }),
            r == TickResult::Read(stack_addr(final(self).reg_sp)),
    {
        self.reg_sp = self.reg_sp.wrapping_add(1);
        let addr = self.reg_sp as u16 | 0x100;
        proof {
            lemma_stack_addr(self.reg_sp);
        }
        TickResult::Read(addr)
    }

    /// Writes `value` to the stack slot the stack pointer selects, then
    /// decrements the stack pointer.
    pub fn push_stack(&mut self, value: u8) -> (r: TickResult)
        ensures
            *final(self) == (CpuRegs { reg_sp: ((old(self).reg_sp + 0xff) % 0x100) as u8, ..*old(self) }),
            r == TickResult::Write(stack_addr(old(self).reg_sp), value),
    {
        let addr = self.reg_sp as u16 | 0x100;
        proof {
            lemma_stack_addr(self.reg_sp);
        }
        let sp = self.reg_sp.wrapping_sub(1);
        proof { crate::bits::lemma_u8(sp); }
        self.reg_sp = sp & 0xff;
        TickResult::Write(addr, value)
    }

    pub fn set_flags_zs(&mut self, value: u8)
        ensures
            *final(self) == (CpuRegs { flag_z: value == 0, flag_s: value >= 0x80, ..*old(self) }),
    {
        self.flag_z = value == 0;
        proof { crate::bits::lemma_u8(value); }
        self.flag_s = value & 0x80 != 0;
    }
}

proof fn lemma_stack_addr(sp: u8)
    ensures
        (sp as u16 | 0x100) == stack_addr(sp),
{
    crate::bits::lemma_u16_u8(0x00, 1);
    crate::bits::lemma_u8_pair(sp, 1);
}

/// Each flag sits in its own bit of the status byte, bits 4 and 5 clear.
pub proof fn lemma_status_byte_bits(c: bool, z: bool, i: bool, d: bool, v: bool, s: bool)
    ensures
        ({
            let r = status_byte(c, z, i, d, v, s);
            &&& (r & 0x01 != 0) == c
            &&& (r & 0x02 != 0) == z
            &&& (r & 0x04 != 0) == i
            &&& (r & 0x08 != 0) == d
            &&& (r & 0x40 != 0) == v
            &&& (r & 0x80 != 0) == s
            &&& r & 0x30 == 0
        }),
{
    let r = status_byte(c, z, i, d, v, s);
    assert({
        &&& (r & 0x01 != 0) == c
        &&& (r & 0x02 != 0) == z
        &&& (r & 0x04 != 0) == i
        &&& (r & 0x08 != 0) == d
        &&& (r & 0x40 != 0) == v
        &&& (r & 0x80 != 0) == s
        &&& r & 0x30 == 0
    }) by (bit_vector)
        requires
            r == (if c { 0x01u8 } else { 0u8 }) | (if z { 0x02u8 } else { 0u8 }) | (if i {
                0x04u8
            } else {
                0u8
            }) | (if d { 0x08u8 } else { 0u8 }) | (if v { 0x40u8 } else { 0u8 }) | (if s {
                0x80u8
            } else {
                0u8
            }),
    ;
}

/// Loading a status byte and reading it back gives the byte with bits 4
/// and 5 cleared.
pub proof fn lemma_status_roundtrip(value: u8)
    ensures
        status_byte(
            value & 0x01 != 0,
            value & 0x02 != 0,
            value & 0x04 != 0,
            value & 0x08 != 0,
            value & 0x40 != 0,
            value & 0x80 != 0,
        ) == value & 0xcf,
{
    let r = status_byte(
        value & 0x01 != 0,
        value & 0x02 != 0,
        value & 0x04 != 0,
        value & 0x08 != 0,
        value & 0x40 != 0,
        value & 0x80 != 0,
    );
    assert(r == value & 0xcf) by (bit_vector)
        requires
            r == (if value & 0x01 != 0 { 0x01u8 } else { 0u8 }) | (if value & 0x02 != 0 {
                0x02u8
            } else {
                0u8
            }) | (if value & 0x04 != 0 { 0x04u8 } else { 0u8 }) | (if value & 0x08 != 0 {
                0x08u8
            } else {
                0u8
            }) | (if value & 0x40 != 0 { 0x40u8 } else { 0u8 }) | (if value & 0x80 != 0 {
                0x80u8
            } else {
                0u8
            }),
    ;
}

/// Setting the status byte from `reg_p` leaves every flag as it was, and
/// `reg_p` after `set_reg_p(v)` is `v` with bits 4 and 5 cleared.
pub proof fn lemma_reg_p_roundtrip(regs: CpuRegs, value: u8)
    ensures
        ({
            let p = regs.spec_reg_p();
            &&& (p & 0x01 != 0) == regs.flag_c
            &&& (p & 0x02 != 0) == regs.flag_z
            &&& (p & 0x04 != 0) == regs.flag_i
            &&& (p & 0x08 != 0) == regs.flag_d
            &&& (p & 0x40 != 0) == regs.flag_v
            &&& (p & 0x80 != 0) == regs.flag_s
        }),
        (CpuRegs {
            flag_c: value & 0x01 != 0,
            flag_z: value & 0x02 != 0,
            flag_i: value & 0x04 != 0,
            flag_d: value & 0x08 != 0,
            flag_v: value & 0x40 != 0,
            flag_s: value & 0x80 != 0,
            ..regs
        }).spec_reg_p() == value & 0xcf,
{
    lemma_status_byte_bits(regs.flag_c, regs.flag_z, regs.flag_i, regs.flag_d, regs.flag_v, regs.flag_s);
    lemma_status_roundtrip(value);
}

/// A push followed by a pop reads back the slot that was written and
/// leaves the stack pointer where it started.
pub proof fn lemma_push_pop(sp: u8)
    ensures
        ({
            let pushed = ((sp + 0xff) % 0x100) as u8;
            let popped = ((pushed + 1) % 0x100) as u8;
            popped == sp && stack_addr(popped) == stack_addr(sp)
        }),
{
}

/// The eight-bit result of an ALU operation, sign taken from bit 7.
pub open spec fn is_negative(v: int) -> bool {
    v >= 0x80
}

impl CpuRegs {
    /// ADC: the accumulator plus `data` plus the carry; carry out of bit 7,
    /// overflow when both operands share a sign the result does not.
    pub fn adc(&mut self, data: u8)
        ensures
            ({
                let sum = old(self).reg_a + data + if old(self).flag_c { 1int } else { 0 };
                let r = sum % 256;
                *final(self) == (CpuRegs {
                    reg_a: r as u8,
                    flag_c: sum > 0xff,
                    flag_v: is_negative(old(self).reg_a as int) == is_negative(data as int) && is_negative(
                        old(self).reg_a as int,
                    ) != is_negative(r),
                    flag_z: r == 0,
                    flag_s: is_negative(r),
                    ..*old(self)
                })
            }),
    {
        let a = self.reg_a;
        let sum: u16 = a as u16 + data as u16 + if self.flag_c { 1 } else { 0 };
        let r = (sum % 256) as u8;
        self.flag_v = (a >= 0x80) == (data >= 0x80) && (a >= 0x80) != (r >= 0x80);
        self.flag_c = sum > 0xff;
        self.reg_a = r;
        self.set_flags_zs(r);
    }

    /// SBC: the accumulator minus `data` minus the borrow (the carry
    /// clear); carry set when no borrow was needed, overflow when the
    /// operands' signs differ and the result's differs from the
    /// accumulator's.
    pub fn sbc(&mut self, data: u8)
        ensures
            ({
                let diff = old(self).reg_a - data - if old(self).flag_c { 0int } else { 1 };
                let r = diff % 256;
                *final(self) == (CpuRegs {
                    reg_a: r as u8,
                    flag_c: diff >= 0,
                    flag_v: is_negative(old(self).reg_a as int) != is_negative(data as int) && is_negative(
                        old(self).reg_a as int,
                    ) != is_negative(r),
                    flag_z: r == 0,
                    flag_s: is_negative(r),
                    ..*old(self)
                })
            }),
    {
        let a = self.reg_a;
        let borrow: u16 = if self.flag_c { 0 } else { 1 };
        let wide: u16 = a as u16 + 256 - data as u16 - borrow;
        let r = (wide % 256) as u8;
        self.flag_v = (a >= 0x80) != (data >= 0x80) && (a >= 0x80) != (r >= 0x80);
        self.flag_c = wide >= 256;
        self.reg_a = r;
        self.set_flags_zs(r);
    }

    /// CMP, CPX, CPY: carry when `reg` is at least `data`, zero and sign
    /// from their difference.
    pub fn compare(&mut self, reg: u8, data: u8)
        ensures
            ({
                let r = (reg - data) % 256;
                *final(self) == (CpuRegs {
                    flag_c: reg >= data,
                    flag_z: r == 0,
                    flag_s: is_negative(r),
                    ..*old(self)
                })
            }),
    {
        self.flag_c = reg >= data;
        let r = reg.wrapping_sub(data);
        self.set_flags_zs(r);
    }

    /// BIT: overflow and sign from bits 6 and 7 of `data`, zero when it
    /// shares no bit with the accumulator.
    pub fn bit(&mut self, data: u8)
        ensures
            *final(self) == (CpuRegs {
                flag_v: data & 0x40 != 0,
                flag_z: data & old(self).reg_a == 0,
                flag_s: is_negative(data as int),
                ..*old(self)
            }),
    {
        self.flag_v = data & 0x40 != 0;
        self.flag_z = data & self.reg_a == 0;
        self.flag_s = data >= 0x80;
    }

    /// ASL: shifted left, bit 7 into the carry.
    pub fn asl(&mut self, value: u8) -> (r: u8)
        ensures
            r == (value * 2) % 256,
            *final(self) == (CpuRegs {
                flag_c: value >= 0x80,
                flag_z: r == 0,
                flag_s: is_negative(r as int),
                ..*old(self)
            }),
    {
        self.flag_c = value >= 0x80;
        let r = ((value as u16 * 2) % 256) as u8;
        self.set_flags_zs(r);
        r
    }

    /// LSR: shifted right, bit 0 into the carry.
    pub fn lsr(&mut self, value: u8) -> (r: u8)
        ensures
            r == value / 2,
            *final(self) == (CpuRegs {
                flag_c: value % 2 == 1,
                flag_z: r == 0,
                flag_s: false,
                ..*old(self)
            }),
    {
        self.flag_c = value % 2 == 1;
        let r = value / 2;
        self.set_flags_zs(r);
        r
    }

    /// ROL: shifted left through the carry.
    pub fn rol(&mut self, value: u8) -> (r: u8)
        ensures
            r == (value * 2 + if old(self).flag_c { 1int } else { 0 }) % 256,
            *final(self) == (CpuRegs {
                flag_c: value >= 0x80,
                flag_z: r == 0,
                flag_s: is_negative(r as int),
                ..*old(self)
            }),
    {
        let c: u16 = if self.flag_c { 1 } else { 0 };
        self.flag_c = value >= 0x80;
        let r = ((value as u16 * 2 + c) % 256) as u8;
        self.set_flags_zs(r);
        r
    }

    /// ROR: shifted right through the carry.
    pub fn ror(&mut self, value: u8) -> (r: u8)
        ensures
            r == value / 2 + if old(self).flag_c { 0x80int } else { 0 },
            *final(self) == (CpuRegs {
                flag_c: value % 2 == 1,
                flag_z: r == 0,
                flag_s: is_negative(r as int),
                ..*old(self)
            }),
    {
        let c: u8 = if self.flag_c { 0x80 } else { 0 };
        self.flag_c = value % 2 == 1;
        let r = value / 2 + c;
        self.set_flags_zs(r);
        r
    }
}

} // verus!
