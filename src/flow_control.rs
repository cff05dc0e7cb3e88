//! Control flow: JMP, JSR, RTS, BRK, RTI and the eight conditional branches.

use vstd::prelude::*;
use crate::bus::{Bus, word_at};
use crate::cpu::{Cpu, IRQ_VECTOR};
use crate::model::{
    Machine, Regs, push_spec, push_word_spec, pulled, pulled_word, pull_spec, pull_word_spec,
    restored_status, with_regs,
};
use crate::status::{Flag, flag_of, with_flag};

verus! {

/// The machine with `PC = pc`.
pub open spec fn with_pc(s: Machine, pc: u16) -> Machine {
    with_regs(s, Regs { pc, ..s.regs })
}

/// JSR to `target`: pushes `PC - 1` (the address of the last operand byte), then jumps.
pub open spec fn jsr_spec(s: Machine, target: u16) -> Machine {
    with_pc(push_word_spec(s, s.regs.pc.wrapping_sub(1)), target)
}

/// RTS: pulls a word and resumes one byte past it.
pub open spec fn rts_spec(s: Machine) -> Machine {
    with_pc(pull_word_spec(s), pulled_word(s).wrapping_add(1))
}

/// BRK, with `PC` already past the opcode: pushes `PC + 1`, then the status byte with B set
/// in the pushed copy; sets I; loads `PC` from the IRQ vector.
pub open spec fn brk_spec(s: Machine) -> Machine {
    let t = push_spec(push_word_spec(s, s.regs.pc.wrapping_add(1)), s.regs.p | 0x10);
    with_regs(
        t,
        Regs {
            p: with_flag(t.regs.p, Flag::InterruptDisable, true),
            pc: word_at(t.mem, IRQ_VECTOR),
            ..t.regs
        },
    )
}

/// RTI: pulls the status byte (current B kept, Unused forced on), then `PC` as it was
/// pushed, with no adjustment.
pub open spec fn rti_spec(s: Machine) -> Machine {
    let t = pull_spec(s);
    let u = with_regs(t, Regs { p: restored_status(s.regs.p, pulled(s)), ..t.regs });
    with_pc(pull_word_spec(u), pulled_word(u))
}

/// The operand byte of a relative branch read as a two's-complement displacement.
pub open spec fn signed_offset(offset: u8) -> int {
    if offset < 0x80 {
        offset as int
    } else {
        offset - 0x100
    }
}

/// Where a taken branch lands: `pc` plus the signed displacement, modulo 65536.
pub open spec fn branch_target(pc: u16, offset: u8) -> u16 {
    ((pc + signed_offset(offset)) % 0x10000) as u16
}

/// Whether two addresses lie on the same 256-byte page.
pub open spec fn same_page(a: u16, b: u16) -> bool {
    a & 0xFF00 == b & 0xFF00
}

/// The registers and extra cycles of a branch on `condition`: not taken, nothing changes
/// and no cycle is added; taken, `PC` moves to the target, with one extra cycle, or two
/// when the target is on another page.
pub open spec fn branch_spec(r: Regs, condition: bool, offset: u8) -> (Regs, u8) {
    if condition {
        let t = branch_target(r.pc, offset);
        (Regs { pc: t, ..r }, if same_page(r.pc, t) { 1 } else { 2 })
    } else {
        (r, 0)
    }
}

impl<B: Bus> Cpu<B> {
    /// JMP: `PC = address`.
    pub fn jmp(&mut self, address: u16)
        ensures
            final(self).regs() == (Regs { pc: address, ..old(self).regs() }),
            final(self).keeps_bus_of(old(self)),
    {
        self.pc = address;
    }

    /// JSR: pushes the return address minus one, high byte first, and jumps to `address`.
    pub fn jsr(&mut self, address: u16)
        ensures
            final(self).machine() == jsr_spec(old(self).machine(), address),
            final(self).keeps_clock_of(old(self)),
    {
        let return_addr = self.pc.wrapping_sub(1);
        self.push_word(return_addr);
        self.pc = address;
    }

    /// RTS: pulls the return address, low byte first, and resumes one past it.
    pub fn rts(&mut self)
        ensures
            final(self).machine() == rts_spec(old(self).machine()),
            final(self).keeps_clock_of(old(self)),
    {
        let addr = self.pull_word();
        self.pc = addr.wrapping_add(1);
    }

    /// BRK: pushes `PC + 1` (past the padding byte) and the status with B set, sets I,
    /// and jumps through the IRQ vector.
    pub fn brk(&mut self)
        ensures
            final(self).machine() == brk_spec(old(self).machine()),
            final(self).keeps_clock_of(old(self)),
    {
        let return_addr = self.pc.wrapping_add(1);
        self.push_word(return_addr);
        let status = self.status.to_byte() | 0x10;
        self.push_byte(status);
        self.status.set(Flag::InterruptDisable, true);
        self.pc = self.read_word(IRQ_VECTOR);
    }

    /// RTI: pulls the status (B kept, Unused forced on), then `PC`.
    pub fn rti(&mut self)
        ensures
            final(self).machine() == rti_spec(old(self).machine()),
            final(self).keeps_clock_of(old(self)),
    {
        let status = self.pull_byte();
        let kept = (status & 0xCF) | (self.status.to_byte() & 0x10) | 0x20;
        self.status.from_byte(kept);
        self.pc = self.pull_word();
    }

    /// A branch on `condition` by the signed displacement `offset`; returns the extra
    /// cycles: 0 when not taken, 1 when taken within the page, 2 across a page.
    pub fn branch(&mut self, condition: bool, offset: u8) -> (r: u8)
        ensures
            (final(self).regs(), r) == branch_spec(old(self).regs(), condition, offset),
            final(self).keeps_bus_of(old(self)),
    {
        if condition {
            let old_pc = self.pc;
            // Sign-extend the displacement and add it modulo 65536.
            self.pc = if offset < 0x80 {
                self.pc.wrapping_add(offset as u16)
            } else {
                self.pc.wrapping_sub(0x100 - offset as u16)
            };
            if (old_pc & 0xFF00) != (self.pc & 0xFF00) {
                2
            } else {
                1
            }
        } else {
            0
        }
    }

    /// BCC: branches when C is clear.
    pub fn bcc(&mut self, offset: u8) -> (r: u8)
        ensures
            (final(self).regs(), r) == branch_spec(old(self).regs(), !flag_of(old(self).status@, Flag::Carry), offset),
            final(self).keeps_bus_of(old(self)),
    {
        self.branch(!self.status.get(Flag::Carry), offset)
    }

    /// BCS: branches when C is set.
    pub fn bcs(&mut self, offset: u8) -> (r: u8)
        ensures
            (final(self).regs(), r) == branch_spec(old(self).regs(), flag_of(old(self).status@, Flag::Carry), offset),
            final(self).keeps_bus_of(old(self)),
    {
        self.branch(self.status.get(Flag::Carry), offset)
    }

    /// BEQ: branches when Z is set.
    pub fn beq(&mut self, offset: u8) -> (r: u8)
        ensures
            (final(self).regs(), r) == branch_spec(old(self).regs(), flag_of(old(self).status@, Flag::Zero), offset),
            final(self).keeps_bus_of(old(self)),
    {
        self.branch(self.status.get(Flag::Zero), offset)
    }

    /// BNE: branches when Z is clear.
    pub fn bne(&mut self, offset: u8) -> (r: u8)
        ensures
            (final(self).regs(), r) == branch_spec(old(self).regs(), !flag_of(old(self).status@, Flag::Zero), offset),
            final(self).keeps_bus_of(old(self)),
    {
        self.branch(!self.status.get(Flag::Zero), offset)
    }

    /// BMI: branches when N is set.
    pub fn bmi(&mut self, offset: u8) -> (r: u8)
        ensures
            (final(self).regs(), r) == branch_spec(old(self).regs(), flag_of(old(self).status@, Flag::Negative), offset),
            final(self).keeps_bus_of(old(self)),
    {
        self.branch(self.status.get(Flag::Negative), offset)
    }

    /// BPL: branches when N is clear.
    pub fn bpl(&mut self, offset: u8) -> (r: u8)
        ensures
            (final(self).regs(), r) == branch_spec(old(self).regs(), !flag_of(old(self).status@, Flag::Negative), offset),
            final(self).keeps_bus_of(old(self)),
    {
        self.branch(!self.status.get(Flag::Negative), offset)
    }

    /// BVC: branches when V is clear.
    pub fn bvc(&mut self, offset: u8) -> (r: u8)
        ensures
            (final(self).regs(), r) == branch_spec(old(self).regs(), !flag_of(old(self).status@, Flag::Overflow), offset),
            final(self).keeps_bus_of(old(self)),
    {
        self.branch(!self.status.get(Flag::Overflow), offset)
    }

    /// BVS: branches when V is set.
    pub fn bvs(&mut self, offset: u8) -> (r: u8)
        ensures
            (final(self).regs(), r) == branch_spec(old(self).regs(), flag_of(old(self).status@, Flag::Overflow), offset),
            final(self).keeps_bus_of(old(self)),
    {
        self.branch(self.status.get(Flag::Overflow), offset)
    }
}

} // verus!
