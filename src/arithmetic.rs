//! Binary arithmetic and comparison: ADC, SBC, CMP, CPX and CPY. Decimal mode has no effect.

use vstd::prelude::*;
use crate::bus::Bus;
use crate::cpu::Cpu;
use crate::model::Regs;
use crate::status::{Flag, flag_of, with_flag, with_zn};

verus! {

/// The carry flag as the number 0 or 1.
pub open spec fn carry_in(p: u8) -> u16 {
    if flag_of(p, Flag::Carry) {
        1
    } else {
        0
    }
}

/// The 16-bit sum `A + M + C` that ADC computes.
pub open spec fn adc_sum(r: Regs, m: u8) -> u16 {
    (r.a as u16 + m as u16 + carry_in(r.p)) as u16
}

/// ADC: `A` becomes the low byte of `A + M + C`; C when the sum exceeds 0xFF; V when
/// `(A ^ R) & (M ^ R) & 0x80` is non-zero for the result byte `R`; Z and N from `R`.
pub open spec fn adc_spec(r: Regs, m: u8) -> Regs {
    let sum = adc_sum(r, m);
    let res = (sum & 0xFF) as u8;
    let v = (r.a ^ res) & (m ^ res) & 0x80 != 0;
    Regs { a: res, p: with_zn(with_flag(with_flag(r.p, Flag::Carry, sum > 0xFF), Flag::Overflow, v), res), ..r }
}

/// SBC: ADC of the bitwise complement of `M`.
pub open spec fn sbc_spec(r: Regs, m: u8) -> Regs {
    adc_spec(r, !m)
}

/// A comparison of `reg` with `m`: C when `reg >= m`, Z and N from `reg - m` modulo 256.
pub open spec fn compare_spec(r: Regs, reg: u8, m: u8) -> Regs {
    Regs { p: with_zn(with_flag(r.p, Flag::Carry, reg >= m), reg.wrapping_sub(m)), ..r }
}

impl<B: Bus> Cpu<B> {
    /// ADC: adds `value` and the carry to A, setting C, V, Z and N.
    pub fn adc(&mut self, value: u8)
        ensures
            final(self).regs() == adc_spec(old(self).regs(), value),
            final(self).keeps_bus_of(old(self)),
    {
        let carry: u16 = if self.status.get(Flag::Carry) {
            1
        } else {
            0
        };
        let a = self.a as u16;
        let m = value as u16;
        let result = a + m + carry;
        let res = (result & 0xFF) as u8;
        let overflow = ((self.a ^ res) & (value ^ res) & 0x80) != 0;
        self.a = res;
        self.status.set(Flag::Carry, result > 0xFF);
        self.status.set(Flag::Overflow, overflow);
        self.status.update_zero_negative(self.a);
    }

    /// SBC: subtracts `value` and the borrow (carry clear) from A, as ADC of `!value`.
    pub fn sbc(&mut self, value: u8)
        ensures
            final(self).regs() == sbc_spec(old(self).regs(), value),
            final(self).keeps_bus_of(old(self)),
    {
        self.adc(!value);
    }

    /// CMP: compares A with `value`.
    pub fn cmp(&mut self, value: u8)
        ensures
            final(self).regs() == compare_spec(old(self).regs(), old(self).a, value),
            final(self).keeps_bus_of(old(self)),
    {
        self.compare(self.a, value);
    }

    /// CPX: compares X with `value`.
    pub fn cpx(&mut self, value: u8)
        ensures
            final(self).regs() == compare_spec(old(self).regs(), old(self).x, value),
            final(self).keeps_bus_of(old(self)),
    {
        self.compare(self.x, value);
    }

    /// CPY: compares Y with `value`.
    pub fn cpy(&mut self, value: u8)
        ensures
            final(self).regs() == compare_spec(old(self).regs(), old(self).y, value),
            final(self).keeps_bus_of(old(self)),
    {
        self.compare(self.y, value);
    }

    fn compare(&mut self, register: u8, value: u8)
        ensures
            final(self).regs() == compare_spec(old(self).regs(), register, value),
            final(self).keeps_bus_of(old(self)),
    {
        let result = register.wrapping_sub(value);
        self.status.set(Flag::Carry, register >= value);
        self.status.update_zero_negative(result);
    }
}

/// ADC over all inputs: the new A is `(A + M + C) mod 256`, C is `A + M + C > 255`, and V
/// is set exactly when A and M have the same sign and the result's sign differs from A's.
pub proof fn lemma_adc(r: Regs, m: u8)
    ensures
        adc_spec(r, m).a == (r.a + m + carry_in(r.p)) % 256,
        flag_of(adc_spec(r, m).p, Flag::Carry) == (r.a + m + carry_in(r.p) > 255),
        flag_of(adc_spec(r, m).p, Flag::Overflow) == ((r.a >= 0x80) == (m >= 0x80) && (r.a
            >= 0x80) != (adc_spec(r, m).a >= 0x80)),
        flag_of(adc_spec(r, m).p, Flag::Zero) == (adc_spec(r, m).a == 0),
        flag_of(adc_spec(r, m).p, Flag::Negative) == (adc_spec(r, m).a >= 0x80),
{
    broadcast use crate::status::lemma_flag_update;

    let a = r.a;
    let c = carry_in(r.p);
    let sum = adc_sum(r, m);
    let res = (sum & 0xFF) as u8;
    assert(sum == a + m + c);
    assert((sum & 0xFF) == sum % 256) by (bit_vector);
    assert(((a ^ res) & (m ^ res) & 0x80 != 0) == ((a >= 0x80) == (m >= 0x80) && (a >= 0x80) != (
    res >= 0x80))) by (bit_vector);
    crate::status::lemma_zn_reads_back(
        with_flag(with_flag(r.p, Flag::Carry, sum > 0xFF), Flag::Overflow, (a ^ res) & (m ^ res) & 0x80 != 0),
        res,
    );
}

/// CMP over all inputs: C is set exactly when `A >= M` and Z exactly when `A == M`.
pub proof fn lemma_compare(r: Regs, reg: u8, m: u8)
    ensures
        flag_of(compare_spec(r, reg, m).p, Flag::Carry) == (reg >= m),
        flag_of(compare_spec(r, reg, m).p, Flag::Zero) == (reg == m),
        compare_spec(r, reg, m).a == r.a,
{
    broadcast use crate::status::lemma_flag_update;

    crate::status::lemma_zn_reads_back(with_flag(r.p, Flag::Carry, reg >= m), reg.wrapping_sub(m));
}

} // verus!
