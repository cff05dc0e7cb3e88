//! Bitwise instructions: AND, ORA, EOR and BIT.

use vstd::prelude::*;
use crate::bus::Bus;
use crate::cpu::Cpu;
use crate::model::Regs;
use crate::status::{Flag, with_flag, with_zn};

verus! {

/// AND: `A = A & m`, Z and N from it.
pub open spec fn and_spec(r: Regs, m: u8) -> Regs {
    Regs { a: r.a & m, p: with_zn(r.p, r.a & m), ..r }
}

/// ORA: `A = A | m`, Z and N from it.
pub open spec fn ora_spec(r: Regs, m: u8) -> Regs {
    Regs { a: r.a | m, p: with_zn(r.p, r.a | m), ..r }
}

/// EOR: `A = A ^ m`, Z and N from it.
pub open spec fn eor_spec(r: Regs, m: u8) -> Regs {
    Regs { a: r.a ^ m, p: with_zn(r.p, r.a ^ m), ..r }
}

/// BIT: Z from `A & m`, N from bit 7 of `m`, V from bit 6 of `m`; A unchanged.
pub open spec fn bit_spec(r: Regs, m: u8) -> Regs {
    Regs {
        p: with_flag(
            with_flag(with_flag(r.p, Flag::Zero, r.a & m == 0), Flag::Negative, m & 0x80 != 0),
            Flag::Overflow,
            m & 0x40 != 0,
        ),
        ..r
    }
}

impl<B: Bus> Cpu<B> {
    /// AND: A becomes `A & value`; Z and N from the result.
    pub fn and(&mut self, value: u8)
        ensures
            final(self).regs() == and_spec(old(self).regs(), value),
            final(self).keeps_bus_of(old(self)),
    {
        self.a = self.a & value;
        self.status.update_zero_negative(self.a);
    }

    /// ORA: A becomes `A | value`; Z and N from the result.
    pub fn ora(&mut self, value: u8)
        ensures
            final(self).regs() == ora_spec(old(self).regs(), value),
            final(self).keeps_bus_of(old(self)),
    {
        self.a = self.a | value;
        self.status.update_zero_negative(self.a);
    }

    /// EOR: A becomes `A ^ value`; Z and N from the result.
    pub fn eor(&mut self, value: u8)
        ensures
            final(self).regs() == eor_spec(old(self).regs(), value),
            final(self).keeps_bus_of(old(self)),
    {
        self.a = self.a ^ value;
        self.status.update_zero_negative(self.a);
    }

    /// BIT: tests `A & value` into Z and copies bits 7 and 6 of `value` into N and V.
    pub fn bit(&mut self, value: u8)
        ensures
            final(self).regs() == bit_spec(old(self).regs(), value),
            final(self).keeps_bus_of(old(self)),
    {
        let result = self.a & value;
        self.status.set(Flag::Zero, result == 0);
        self.status.set(Flag::Negative, (value & 0x80) != 0);
        self.status.set(Flag::Overflow, (value & 0x40) != 0);
    }
}

} // verus!
