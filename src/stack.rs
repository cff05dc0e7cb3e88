//! Stack instructions: PHA, PLA, PHP and PLP.

use vstd::prelude::*;
use crate::bus::Bus;
use crate::cpu::Cpu;
use crate::model::{Machine, Regs, push_spec, pulled, pull_spec, restored_status, with_regs};
use crate::status::with_zn;

verus! {

/// PHA: pushes A.
pub open spec fn pha_spec(s: Machine) -> Machine {
    push_spec(s, s.regs.a)
}

/// PLA: pulls A; Z and N from it.
pub open spec fn pla_spec(s: Machine) -> Machine {
    let v = pulled(s);
    let t = pull_spec(s);
    with_regs(t, Regs { a: v, p: with_zn(t.regs.p, v), ..t.regs })
}

/// PHP: pushes the status byte with B set in the pushed copy.
pub open spec fn php_spec(s: Machine) -> Machine {
    push_spec(s, s.regs.p | 0x10)
}

/// PLP: pulls the status byte, keeping the current B and forcing Unused to 1.
pub open spec fn plp_spec(s: Machine) -> Machine {
    let t = pull_spec(s);
    with_regs(t, Regs { p: restored_status(s.regs.p, pulled(s)), ..t.regs })
}

impl<B: Bus> Cpu<B> {
    /// PHA: pushes A.
    pub fn pha(&mut self)
        ensures
            final(self).machine() == pha_spec(old(self).machine()),
            final(self).keeps_clock_of(old(self)),
    {
        self.push_byte(self.a);
    }

    /// PLA: pulls A and sets Z and N from it.
    pub fn pla(&mut self)
        ensures
            final(self).machine() == pla_spec(old(self).machine()),
            final(self).keeps_clock_of(old(self)),
    {
        self.a = self.pull_byte();
        self.status.update_zero_negative(self.a);
    }

    /// PHP: pushes the status byte with B set in the pushed copy.
    pub fn php(&mut self)
        ensures
            final(self).machine() == php_spec(old(self).machine()),
            final(self).keeps_clock_of(old(self)),
    {
        let status = self.status.to_byte() | 0x10;
        self.push_byte(status);
    }

    /// PLP: pulls the status byte; B keeps its current value and Unused is forced on.
    pub fn plp(&mut self)
        ensures
            final(self).machine() == plp_spec(old(self).machine()),
            final(self).keeps_clock_of(old(self)),
    {
        let status = self.pull_byte();
        let kept = (status & 0xCF) | (self.status.to_byte() & 0x10) | 0x20;
        self.status.from_byte(kept);
    }
}

} // verus!
