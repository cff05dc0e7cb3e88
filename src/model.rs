//! The processor as a mathematical value: registers, memory, and the stack discipline.

use vstd::prelude::*;

verus! {

/// The programmer-visible registers, with the status register as its packed byte.
pub struct Regs {
    pub a: u8,
    pub x: u8,
    pub y: u8,
    pub sp: u8,
    pub pc: u16,
    pub p: u8,
}

/// Registers together with the memory the bus presents.
pub struct Machine {
    pub regs: Regs,
    pub mem: Map<u16, u8>,
}

/// The address of the stack slot that `sp` designates: always on page 1.
pub open spec fn stack_addr(sp: u8) -> u16 {
    (0x0100 + sp) as u16
}

/// The machine after pushing `v`: written at the slot of `SP`, then `SP` decremented.
pub open spec fn push_spec(s: Machine, v: u8) -> Machine {
    Machine {
        regs: Regs { sp: s.regs.sp.wrapping_sub(1), ..s.regs },
        mem: s.mem.insert(stack_addr(s.regs.sp), v),
    }
}

/// The byte a pull yields: `SP` incremented, then its slot read.
pub open spec fn pulled(s: Machine) -> u8 {
    s.mem[stack_addr(s.regs.sp.wrapping_add(1))]
}

/// The machine after a pull.
pub open spec fn pull_spec(s: Machine) -> Machine {
    Machine { regs: Regs { sp: s.regs.sp.wrapping_add(1), ..s.regs }, ..s }
}

/// The machine after pushing a word, high byte first.
pub open spec fn push_word_spec(s: Machine, w: u16) -> Machine {
    push_spec(push_spec(s, (w >> 8) as u8), (w & 0xFF) as u8)
}

/// The word two pulls yield, low byte first.
pub open spec fn pulled_word(s: Machine) -> u16 {
    (pulled(s) as int + 256 * pulled(pull_spec(s)) as int) as u16
}

/// The machine after pulling a word.
pub open spec fn pull_word_spec(s: Machine) -> Machine {
    pull_spec(pull_spec(s))
}

/// The status byte that PLP and RTI install from a pulled byte `v`: every bit of `v`
/// except B, which keeps its current value `cur`, and Unused, which is forced to 1.
pub open spec fn restored_status(cur: u8, v: u8) -> u8 {
    (v & 0xCF) | (cur & 0x10) | 0x20
}

/// The machine with new registers and the same memory.
pub open spec fn with_regs(s: Machine, r: Regs) -> Machine {
    Machine { regs: r, mem: s.mem }
}

/// Every stack slot lies on page 1, `0x0100` to `0x01FF`.
pub proof fn lemma_stack_on_page_one(sp: u8)
    ensures
        0x0100 <= stack_addr(sp) <= 0x01FF,
        stack_addr(sp) == (0x0100u16 | sp as u16),
{
    let s = sp as u16;
    assert(0x0100u16 | s == 0x0100 + s) by (bit_vector)
        requires s < 256u16;
}

} // verus!
