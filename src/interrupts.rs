//! Hardware interrupts: IRQ, honoured only while I is clear, and NMI, always honoured.

use vstd::prelude::*;
use crate::bus::{Bus, word_at};
use crate::cpu::{Cpu, IRQ_VECTOR, NMI_VECTOR};
use crate::model::{Machine, Regs, push_spec, push_word_spec, with_regs};
use crate::status::{Flag, flag_of, with_flag};

verus! {

/// The cycles an interrupt sequence takes.
pub const INTERRUPT_CYCLES: u8 = 7;

/// An interrupt through `vector`: pushes `PC`, then the status byte with B clear and Unused
/// set in the pushed copy; sets I; loads `PC` from the vector.
pub open spec fn interrupt_spec(s: Machine, vector: u16) -> Machine {
    let t = push_spec(push_word_spec(s, s.regs.pc), (s.regs.p & 0xEF) | 0x20);
    with_regs(
        t,
        Regs {
            p: with_flag(t.regs.p, Flag::InterruptDisable, true),
            pc: word_at(t.mem, vector),
            ..t.regs
        },
    )
}

impl<B: Bus> Cpu<B> {
    fn interrupt(&mut self, vector: u16)
        ensures
            final(self).machine() == interrupt_spec(old(self).machine(), vector),
            final(self).bus.ticks() == old(self).bus.ticks() + INTERRUPT_CYCLES,
            final(self).cycles == old(self).cycles,
    {
        self.push_word(self.pc);
        let status = (self.status.to_byte() & 0xEF) | 0x20;
        self.push_byte(status);
        self.status.set(Flag::InterruptDisable, true);
        self.pc = self.read_word(vector);
        let mut i: u8 = 0;
        while i < INTERRUPT_CYCLES
            invariant
                i <= INTERRUPT_CYCLES,
                self.machine() == interrupt_spec(old(self).machine(), vector),
                self.bus.ticks() == old(self).bus.ticks() + i,
                self.cycles == old(self).cycles,
            decreases INTERRUPT_CYCLES - i,
        {
            self.bus.tick();
            i = i + 1;
        }
    }

    /// A maskable interrupt request. When I is clear, runs the interrupt sequence through
    /// the IRQ vector, ticking the bus seven times, and returns true; when I is set,
    /// changes nothing and returns false.
    pub fn irq(&mut self) -> (taken: bool)
        ensures
            taken == !flag_of(old(self).status@, Flag::InterruptDisable),
            taken ==> final(self).machine() == interrupt_spec(old(self).machine(), IRQ_VECTOR)
                && final(self).bus.ticks() == old(self).bus.ticks() + INTERRUPT_CYCLES
                && final(self).cycles == old(self).cycles,
            !taken ==> *final(self) == *old(self),
    {
        if self.status.get(Flag::InterruptDisable) {
            false
        } else {
            self.interrupt(IRQ_VECTOR);
            true
        }
    }

    /// A non-maskable interrupt: runs the interrupt sequence through the NMI vector
    /// whatever I holds, ticking the bus seven times.
    pub fn nmi(&mut self)
        ensures
            final(self).machine() == interrupt_spec(old(self).machine(), NMI_VECTOR),
            final(self).bus.ticks() == old(self).bus.ticks() + INTERRUPT_CYCLES,
            final(self).cycles == old(self).cycles,
    {
        self.interrupt(NMI_VECTOR);
    }
}

} // verus!
