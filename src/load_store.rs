//! Loads into and stores from A, X and Y.

use vstd::prelude::*;
use crate::bus::Bus;
use crate::cpu::Cpu;
use crate::model::Regs;
use crate::status::with_zn;

verus! {

/// LDA: `A = v`, Z and N from `v`.
pub open spec fn lda_spec(r: Regs, v: u8) -> Regs {
    Regs { a: v, p: with_zn(r.p, v), ..r }
}

/// LDX: `X = v`, Z and N from `v`.
pub open spec fn ldx_spec(r: Regs, v: u8) -> Regs {
    Regs { x: v, p: with_zn(r.p, v), ..r }
}

/// LDY: `Y = v`, Z and N from `v`.
pub open spec fn ldy_spec(r: Regs, v: u8) -> Regs {
    Regs { y: v, p: with_zn(r.p, v), ..r }
}

impl<B: Bus> Cpu<B> {
    /// LDA: loads `value` into A and sets Z and N from it.
    pub fn lda(&mut self, value: u8)
        ensures
            final(self).regs() == lda_spec(old(self).regs(), value),
            final(self).keeps_bus_of(old(self)),
    {
        self.a = value;
        self.status.update_zero_negative(value);
    }

    /// LDX: loads `value` into X and sets Z and N from it.
    pub fn ldx(&mut self, value: u8)
        ensures
            final(self).regs() == ldx_spec(old(self).regs(), value),
            final(self).keeps_bus_of(old(self)),
    {
        self.x = value;
        self.status.update_zero_negative(value);
    }

    /// LDY: loads `value` into Y and sets Z and N from it.
    pub fn ldy(&mut self, value: u8)
        ensures
            final(self).regs() == ldy_spec(old(self).regs(), value),
            final(self).keeps_bus_of(old(self)),
    {
        self.y = value;
        self.status.update_zero_negative(value);
    }

    /// STA: the byte to store, A. No flag changes.
    pub fn sta(&self) -> (r: u8)
        ensures
            r == self.a,
    {
        self.a
    }

    /// STX: the byte to store, X. No flag changes.
    pub fn stx(&self) -> (r: u8)
        ensures
            r == self.x,
    {
        self.x
    }

    /// STY: the byte to store, Y. No flag changes.
    pub fn sty(&self) -> (r: u8)
        ensures
            r == self.y,
    {
        self.y
    }
}

} // verus!
