//! Instruction pairs that undo each other: JSR then RTS, BRK then RTI, PHP then PLP.

use vstd::prelude::*;
use crate::execute::step_spec;
use crate::model::{Machine, Regs, restored_status};
use crate::status::{Flag, flag_of};

verus! {

/// A word split into the bytes a push writes and put back together.
proof fn lemma_word_bytes(w: u16)
    ensures
        ((w & 0xFF) as u8) as int + 256 * ((w >> 8) as u8) as int == w,
{
    let lo = w & 0xFF;
    let hi = w >> 8;
    assert(lo + 256 * hi == w && lo < 256 && hi < 256) by (bit_vector)
        requires lo == w & 0xFF, hi == w >> 8;
}

/// JSR immediately followed by RTS: execution resumes three bytes past the JSR opcode, with
/// every other register, `SP` included, as before.
pub proof fn lemma_jsr_then_rts(s: Machine)
    requires
        s.mem[s.regs.pc] == 0x20,
        step_spec(s).0.mem[step_spec(s).0.regs.pc] == 0x60,
    ensures
        step_spec(step_spec(s).0).0.regs == (Regs { pc: s.regs.pc.wrapping_add(3), ..s.regs }),
{
    let ret = s.regs.pc.wrapping_add(3).wrapping_sub(1);
    lemma_word_bytes(ret);
    assert(s.regs.pc.wrapping_add(1).wrapping_add(2) == s.regs.pc.wrapping_add(3));
    assert(ret.wrapping_add(1) == s.regs.pc.wrapping_add(3));
    assert(s.regs.sp.wrapping_sub(1).wrapping_sub(1).wrapping_add(1) == s.regs.sp.wrapping_sub(1));
    assert(s.regs.sp.wrapping_sub(1).wrapping_add(1) == s.regs.sp);
}

/// BRK immediately followed by RTI: execution resumes two bytes past the BRK opcode (one
/// past its padding byte), `SP` and every flag are as before the BRK (B and I included),
/// and Unused reads as 1.
pub proof fn lemma_brk_then_rti(s: Machine)
    requires
        s.mem[s.regs.pc] == 0x00,
        step_spec(s).0.mem[step_spec(s).0.regs.pc] == 0x40,
    ensures
        step_spec(step_spec(s).0).0.regs == (Regs {
            pc: s.regs.pc.wrapping_add(2),
            p: s.regs.p | 0x20,
            ..s.regs
        }),
{
    let ret = s.regs.pc.wrapping_add(1).wrapping_add(1);
    lemma_word_bytes(ret);
    assert(ret == s.regs.pc.wrapping_add(2));
    let sp = s.regs.sp;
    assert(sp.wrapping_sub(1).wrapping_sub(1) == sp.wrapping_sub(2));
    assert(sp.wrapping_sub(2).wrapping_sub(1).wrapping_add(1) == sp.wrapping_sub(2));
    assert(sp.wrapping_sub(2).wrapping_add(1) == sp.wrapping_sub(1));
    assert(sp.wrapping_sub(1).wrapping_add(1) == sp);
    let p = s.regs.p;
    assert(((p | 0x10) & 0xCF) | ((p | 0x04) & 0x10) | 0x20 == p | 0x20) by (bit_vector);
}

/// PHP then PLP: the byte PHP pushes has B set, and PLP installs every flag of `p` but B,
/// which keeps its value `cur` from just before the PLP, and Unused, which reads as 1.
pub proof fn lemma_php_then_plp(p: u8, cur: u8)
    ensures
        flag_of(p | 0x10, Flag::Break),
        forall|f: Flag|
            f != Flag::Break && f != Flag::Unused ==> #[trigger] flag_of(
                restored_status(cur, p | 0x10),
                f,
            ) == flag_of(p, f),
        flag_of(restored_status(cur, p | 0x10), Flag::Break) == flag_of(cur, Flag::Break),
        flag_of(restored_status(cur, p | 0x10), Flag::Unused),
{
    let q = restored_status(cur, p | 0x10);
    assert((p | 0x10) & 0x10 != 0) by (bit_vector);
    assert(q & 0x01 == p & 0x01 && q & 0x02 == p & 0x02 && q & 0x04 == p & 0x04 && q & 0x08 == p
        & 0x08 && q & 0x40 == p & 0x40 && q & 0x80 == p & 0x80 && q & 0x10 == cur & 0x10 && q
        & 0x20 != 0) by (bit_vector)
        requires q == ((p | 0x10) & 0xCF) | (cur & 0x10) | 0x20;
}

} // verus!
