//! Shifts and rotations: ASL, LSR, ROL and ROR, on A or on a memory byte.

use vstd::prelude::*;
use crate::bus::Bus;
use crate::cpu::Cpu;
use crate::model::Regs;
use crate::status::{Flag, flag_of, with_flag, with_zn};

verus! {

/// ASL of `x`: shifted left by one, bit 0 clear.
pub open spec fn asl_value(x: u8) -> u8 {
    x << 1
}

/// LSR of `x`: shifted right by one, bit 7 clear.
pub open spec fn lsr_value(x: u8) -> u8 {
    x >> 1
}

/// ROL of `x` through carry `c`: shifted left by one with `c` entering bit 0.
pub open spec fn rol_value(x: u8, c: bool) -> u8 {
    (x << 1) | (if c { 1u8 } else { 0u8 })
}

/// ROR of `x` through carry `c`: shifted right by one with `c` entering bit 7.
pub open spec fn ror_value(x: u8, c: bool) -> u8 {
    (x >> 1) | (if c { 0x80u8 } else { 0u8 })
}

/// The bit that a left shift or rotation moves out into C: bit 7.
pub open spec fn high_bit(x: u8) -> bool {
    x & 0x80 != 0
}

/// The bit that a right shift or rotation moves out into C: bit 0.
pub open spec fn low_bit(x: u8) -> bool {
    x & 0x01 != 0
}

/// The registers after a shift or rotation that produced `result` and moved `carry` out.
pub open spec fn shifted_spec(r: Regs, result: u8, carry: bool) -> Regs {
    Regs { p: with_zn(with_flag(r.p, Flag::Carry, carry), result), ..r }
}

/// The same with the result also loaded into A.
pub open spec fn shifted_acc_spec(r: Regs, result: u8, carry: bool) -> Regs {
    Regs { a: result, ..shifted_spec(r, result, carry) }
}

impl<B: Bus> Cpu<B> {
    /// ASL A: C takes bit 7 of A, then A shifts left; Z and N from the result.
    pub fn asl_acc(&mut self)
        ensures
            final(self).regs() == shifted_acc_spec(old(self).regs(), asl_value(old(self).a), high_bit(old(self).a)),
            final(self).keeps_bus_of(old(self)),
    {
        let carry = (self.a & 0x80) != 0;
        self.a = self.a << 1;
        self.status.set(Flag::Carry, carry);
        self.status.update_zero_negative(self.a);
    }

    /// ASL of the memory byte `value`: the byte to write back; C takes bit 7.
    pub fn asl_mem(&mut self, value: u8) -> (r: u8)
        ensures
            r == asl_value(value),
            final(self).regs() == shifted_spec(old(self).regs(), r, high_bit(value)),
            final(self).keeps_bus_of(old(self)),
    {
        let carry = (value & 0x80) != 0;
        let result = value << 1;
        self.status.set(Flag::Carry, carry);
        self.status.update_zero_negative(result);
        result
    }

    /// LSR A: C takes bit 0 of A, then A shifts right; Z from the result, N always clear.
    pub fn lsr_acc(&mut self)
        ensures
            final(self).regs() == shifted_acc_spec(old(self).regs(), lsr_value(old(self).a), low_bit(old(self).a)),
            !flag_of(final(self).status@, Flag::Negative),
            final(self).keeps_bus_of(old(self)),
    {
        let carry = (self.a & 0x01) != 0;
        self.a = self.a >> 1;
        self.status.set(Flag::Carry, carry);
        self.status.update_zero_negative(self.a);
        proof { lemma_lsr_clears_negative(old(self).regs(), old(self).a); }
    }

    /// LSR of the memory byte `value`: the byte to write back; C takes bit 0, N clear.
    pub fn lsr_mem(&mut self, value: u8) -> (r: u8)
        ensures
            r == lsr_value(value),
            final(self).regs() == shifted_spec(old(self).regs(), r, low_bit(value)),
            !flag_of(final(self).status@, Flag::Negative),
            final(self).keeps_bus_of(old(self)),
    {
        let carry = (value & 0x01) != 0;
        let result = value >> 1;
        self.status.set(Flag::Carry, carry);
        self.status.update_zero_negative(result);
        proof { lemma_lsr_clears_negative(old(self).regs(), value); }
        result
    }

    /// ROL A: A shifts left with the old C entering bit 0; C takes the old bit 7.
    pub fn rol_acc(&mut self)
        ensures
            final(self).regs() == shifted_acc_spec(
                old(self).regs(),
                rol_value(old(self).a, flag_of(old(self).status@, Flag::Carry)),
                high_bit(old(self).a),
            ),
            final(self).keeps_bus_of(old(self)),
    {
        let old_carry: u8 = if self.status.get(Flag::Carry) {
            1
        } else {
            0
        };
        let new_carry = (self.a & 0x80) != 0;
        self.a = (self.a << 1) | old_carry;
        self.status.set(Flag::Carry, new_carry);
        self.status.update_zero_negative(self.a);
    }

    /// ROL of the memory byte `value`: the byte to write back, with the old C in bit 0;
    /// C takes bit 7 of `value`.
    pub fn rol_mem(&mut self, value: u8) -> (r: u8)
        ensures
            r == rol_value(value, flag_of(old(self).status@, Flag::Carry)),
            final(self).regs() == shifted_spec(old(self).regs(), r, high_bit(value)),
            final(self).keeps_bus_of(old(self)),
    {
        let old_carry: u8 = if self.status.get(Flag::Carry) {
            1
        } else {
            0
        };
        let new_carry = (value & 0x80) != 0;
        let result = (value << 1) | old_carry;
        self.status.set(Flag::Carry, new_carry);
        self.status.update_zero_negative(result);
        result
    }

    /// ROR A: A shifts right with the old C entering bit 7; C takes the old bit 0.
    pub fn ror_acc(&mut self)
        ensures
            final(self).regs() == shifted_acc_spec(
                old(self).regs(),
                ror_value(old(self).a, flag_of(old(self).status@, Flag::Carry)),
                low_bit(old(self).a),
            ),
            final(self).keeps_bus_of(old(self)),
    {
        let old_carry: u8 = if self.status.get(Flag::Carry) {
            0x80
        } else {
            0
        };
        let new_carry = (self.a & 0x01) != 0;
        self.a = (self.a >> 1) | old_carry;
        self.status.set(Flag::Carry, new_carry);
        self.status.update_zero_negative(self.a);
    }

    /// ROR of the memory byte `value`: the byte to write back, with the old C in bit 7;
    /// C takes bit 0 of `value`.
    pub fn ror_mem(&mut self, value: u8) -> (r: u8)
        ensures
            r == ror_value(value, flag_of(old(self).status@, Flag::Carry)),
            final(self).regs() == shifted_spec(old(self).regs(), r, low_bit(value)),
            final(self).keeps_bus_of(old(self)),
    {
        let old_carry: u8 = if self.status.get(Flag::Carry) {
            0x80
        } else {
            0
        };
        let new_carry = (value & 0x01) != 0;
        let result = (value >> 1) | old_carry;
        self.status.set(Flag::Carry, new_carry);
        self.status.update_zero_negative(result);
        result
    }
}

/// LSR never leaves N set: its result has bit 7 clear.
pub proof fn lemma_lsr_clears_negative(r: Regs, x: u8)
    ensures
        lsr_value(x) < 0x80,
        !flag_of(shifted_spec(r, lsr_value(x), low_bit(x)).p, Flag::Negative),
{
    assert((x >> 1) < 0x80) by (bit_vector);
    crate::status::lemma_zn_reads_back(with_flag(r.p, Flag::Carry, low_bit(x)), lsr_value(x));
}

/// Rotations through carry undo each other when the carry is threaded: ROR after ROL, fed
/// the bit ROL moved out, gives back `x` and moves out the carry ROL took in; likewise
/// ROL after ROR.
pub proof fn lemma_rotations_invert(x: u8, c: bool)
    ensures
        ror_value(rol_value(x, c), high_bit(x)) == x,
        low_bit(rol_value(x, c)) == c,
        rol_value(ror_value(x, c), low_bit(x)) == x,
        high_bit(ror_value(x, c)) == c,
{
    let ci: u8 = if c { 1 } else { 0 };
    let ch: u8 = if c { 0x80 } else { 0 };
    assert((((x << 1) | ci) >> 1) | (if x & 0x80 != 0 { 0x80u8 } else { 0u8 }) == x
        && ((((x << 1) | ci) & 1 != 0) == (ci == 1))) by (bit_vector)
        requires ci == 0u8 || ci == 1u8;
    assert((((x >> 1) | ch) << 1) | (if x & 0x01 != 0 { 1u8 } else { 0u8 }) == x
        && ((((x >> 1) | ch) & 0x80 != 0) == (ch == 0x80u8))) by (bit_vector)
        requires ch == 0u8 || ch == 0x80u8;
}

} // verus!
