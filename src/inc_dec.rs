//! Increments and decrements: INC, DEC, INX, DEX, INY and DEY, all modulo 256.

use vstd::prelude::*;
use crate::bus::Bus;
use crate::cpu::Cpu;
use crate::model::Regs;
use crate::status::with_zn;

verus! {

/// INX: `X = X + 1` modulo 256, Z and N from it.
pub open spec fn inx_spec(r: Regs) -> Regs {
    Regs { x: r.x.wrapping_add(1), p: with_zn(r.p, r.x.wrapping_add(1)), ..r }
}

/// DEX: `X = X - 1` modulo 256, Z and N from it.
pub open spec fn dex_spec(r: Regs) -> Regs {
    Regs { x: r.x.wrapping_sub(1), p: with_zn(r.p, r.x.wrapping_sub(1)), ..r }
}

/// INY: `Y = Y + 1` modulo 256, Z and N from it.
pub open spec fn iny_spec(r: Regs) -> Regs {
    Regs { y: r.y.wrapping_add(1), p: with_zn(r.p, r.y.wrapping_add(1)), ..r }
}

/// DEY: `Y = Y - 1` modulo 256, Z and N from it.
pub open spec fn dey_spec(r: Regs) -> Regs {
    Regs { y: r.y.wrapping_sub(1), p: with_zn(r.p, r.y.wrapping_sub(1)), ..r }
}

impl<B: Bus> Cpu<B> {
    /// INC: the memory byte `value` plus one, modulo 256, to be written back; Z and N
    /// from it.
    pub fn inc_mem(&mut self, value: u8) -> (r: u8)
        ensures
            r == value.wrapping_add(1),
            final(self).regs() == (Regs { p: with_zn(old(self).status@, r), ..old(self).regs() }),
            final(self).keeps_bus_of(old(self)),
    {
        let result = value.wrapping_add(1);
        self.status.update_zero_negative(result);
        result
    }

    /// DEC: the memory byte `value` minus one, modulo 256, to be written back; Z and N
    /// from it.
    pub fn dec_mem(&mut self, value: u8) -> (r: u8)
        ensures
            r == value.wrapping_sub(1),
            final(self).regs() == (Regs { p: with_zn(old(self).status@, r), ..old(self).regs() }),
            final(self).keeps_bus_of(old(self)),
    {
        let result = value.wrapping_sub(1);
        self.status.update_zero_negative(result);
        result
    }

    /// INX: adds one to X modulo 256; Z and N from the result.
    pub fn inx(&mut self)
        ensures
            final(self).regs() == inx_spec(old(self).regs()),
            final(self).keeps_bus_of(old(self)),
    {
        self.x = self.x.wrapping_add(1);
        self.status.update_zero_negative(self.x);
    }

    /// DEX: subtracts one from X modulo 256; Z and N from the result.
    pub fn dex(&mut self)
        ensures
            final(self).regs() == dex_spec(old(self).regs()),
            final(self).keeps_bus_of(old(self)),
    {
        self.x = self.x.wrapping_sub(1);
        self.status.update_zero_negative(self.x);
    }

    /// INY: adds one to Y modulo 256; Z and N from the result.
    pub fn iny(&mut self)
        ensures
            final(self).regs() == iny_spec(old(self).regs()),
            final(self).keeps_bus_of(old(self)),
    {
        self.y = self.y.wrapping_add(1);
        self.status.update_zero_negative(self.y);
    }

    /// DEY: subtracts one from Y modulo 256; Z and N from the result.
    pub fn dey(&mut self)
        ensures
            final(self).regs() == dey_spec(old(self).regs()),
            final(self).keeps_bus_of(old(self)),
    {
        self.y = self.y.wrapping_sub(1);
        self.status.update_zero_negative(self.y);
    }
}

} // verus!
