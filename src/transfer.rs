//! Register transfers: TAX, TAY, TXA, TYA, TSX and TXS.

use vstd::prelude::*;
use crate::bus::Bus;
use crate::cpu::Cpu;
use crate::model::Regs;
use crate::status::with_zn;

verus! {

/// TAX: `X = A`, Z and N from it.
pub open spec fn tax_spec(r: Regs) -> Regs {
    Regs { x: r.a, p: with_zn(r.p, r.a), ..r }
}

/// TAY: `Y = A`, Z and N from it.
pub open spec fn tay_spec(r: Regs) -> Regs {
    Regs { y: r.a, p: with_zn(r.p, r.a), ..r }
}

/// TXA: `A = X`, Z and N from it.
pub open spec fn txa_spec(r: Regs) -> Regs {
    Regs { a: r.x, p: with_zn(r.p, r.x), ..r }
}

/// TYA: `A = Y`, Z and N from it.
pub open spec fn tya_spec(r: Regs) -> Regs {
    Regs { a: r.y, p: with_zn(r.p, r.y), ..r }
}

/// TSX: `X = SP`, Z and N from it.
pub open spec fn tsx_spec(r: Regs) -> Regs {
    Regs { x: r.sp, p: with_zn(r.p, r.sp), ..r }
}

/// TXS: `SP = X`, flags untouched.
pub open spec fn txs_spec(r: Regs) -> Regs {
    Regs { sp: r.x, ..r }
}

impl<B: Bus> Cpu<B> {
    /// TAX: copies A into X; Z and N from the copy.
    pub fn tax(&mut self)
        ensures
            final(self).regs() == tax_spec(old(self).regs()),
            final(self).keeps_bus_of(old(self)),
    {
        self.x = self.a;
        self.status.update_zero_negative(self.x);
    }

    /// TAY: copies A into Y; Z and N from the copy.
    pub fn tay(&mut self)
        ensures
            final(self).regs() == tay_spec(old(self).regs()),
            final(self).keeps_bus_of(old(self)),
    {
        self.y = self.a;
        self.status.update_zero_negative(self.y);
    }

    /// TXA: copies X into A; Z and N from the copy.
    pub fn txa(&mut self)
        ensures
            final(self).regs() == txa_spec(old(self).regs()),
            final(self).keeps_bus_of(old(self)),
    {
        self.a = self.x;
        self.status.update_zero_negative(self.a);
    }

    /// TYA: copies Y into A; Z and N from the copy.
    pub fn tya(&mut self)
        ensures
            final(self).regs() == tya_spec(old(self).regs()),
            final(self).keeps_bus_of(old(self)),
    {
        self.a = self.y;
        self.status.update_zero_negative(self.a);
    }

    /// TSX: copies SP into X; Z and N from the copy.
    pub fn tsx(&mut self)
        ensures
            final(self).regs() == tsx_spec(old(self).regs()),
            final(self).keeps_bus_of(old(self)),
    {
        self.x = self.sp;
        self.status.update_zero_negative(self.x);
    }

    /// TXS: copies X into SP; no flag changes.
    pub fn txs(&mut self)
        ensures
            final(self).regs() == txs_spec(old(self).regs()),
            final(self).keeps_bus_of(old(self)),
    {
        self.sp = self.x;
    }
}

} // verus!
