//! Flag instructions: CLC, SEC, CLI, SEI, CLD, SED and CLV, each touching one bit only.

use vstd::prelude::*;
use crate::bus::Bus;
use crate::cpu::Cpu;
use crate::model::Regs;
use crate::status::{Flag, with_flag};

verus! {

/// The registers with flag `f` of the status byte set to `v`.
pub open spec fn set_flag_spec(r: Regs, f: Flag, v: bool) -> Regs {
    Regs { p: with_flag(r.p, f, v), ..r }
}

impl<B: Bus> Cpu<B> {
    /// CLC: clears Carry.
    pub fn clc(&mut self)
        ensures
            final(self).regs() == set_flag_spec(old(self).regs(), Flag::Carry, false),
            final(self).keeps_bus_of(old(self)),
    {
        self.status.set(Flag::Carry, false);
    }

    /// SEC: sets Carry.
    pub fn sec(&mut self)
        ensures
            final(self).regs() == set_flag_spec(old(self).regs(), Flag::Carry, true),
            final(self).keeps_bus_of(old(self)),
    {
        self.status.set(Flag::Carry, true);
    }

    /// CLI: clears Interrupt Disable.
    pub fn cli(&mut self)
        ensures
            final(self).regs() == set_flag_spec(old(self).regs(), Flag::InterruptDisable, false),
            final(self).keeps_bus_of(old(self)),
    {
        self.status.set(Flag::InterruptDisable, false);
    }

    /// SEI: sets Interrupt Disable.
    pub fn sei(&mut self)
        ensures
            final(self).regs() == set_flag_spec(old(self).regs(), Flag::InterruptDisable, true),
            final(self).keeps_bus_of(old(self)),
    {
        self.status.set(Flag::InterruptDisable, true);
    }

    /// CLD: clears Decimal Mode. The flag is stored only: ADC and SBC stay binary.
    pub fn cld(&mut self)
        ensures
            final(self).regs() == set_flag_spec(old(self).regs(), Flag::DecimalMode, false),
            final(self).keeps_bus_of(old(self)),
    {
        self.status.set(Flag::DecimalMode, false);
    }

    /// SED: sets Decimal Mode. The flag is stored only: ADC and SBC stay binary.
    pub fn sed(&mut self)
        ensures
            final(self).regs() == set_flag_spec(old(self).regs(), Flag::DecimalMode, true),
            final(self).keeps_bus_of(old(self)),
    {
        self.status.set(Flag::DecimalMode, true);
    }

    /// CLV: clears Overflow.
    pub fn clv(&mut self)
        ensures
            final(self).regs() == set_flag_spec(old(self).regs(), Flag::Overflow, false),
            final(self).keeps_bus_of(old(self)),
    {
        self.status.set(Flag::Overflow, false);
    }
}

} // verus!
