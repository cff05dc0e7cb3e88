//! The processor status register `P`, laid out `N V 1 B D I Z C` from bit 7 to bit 0.

use vstd::prelude::*;

verus! {

/// The eight bit positions of the status register.
#[derive(Debug, Clone, Copy, PartialEq, Eq, Structural)]
pub enum Flag {
    Carry,
    Zero,
    InterruptDisable,
    DecimalMode,
    Break,
    Unused,
    Overflow,
    Negative,
}

/// The single-bit mask of a flag within the packed byte.
pub open spec fn flag_mask(f: Flag) -> u8 {
    match f {
        Flag::Carry => 0x01,
        Flag::Zero => 0x02,
        Flag::InterruptDisable => 0x04,
        Flag::DecimalMode => 0x08,
        Flag::Break => 0x10,
        Flag::Unused => 0x20,
        Flag::Overflow => 0x40,
        Flag::Negative => 0x80,
    }
}

/// Whether flag `f` is set in the packed byte `p`.
pub open spec fn flag_of(p: u8, f: Flag) -> bool {
    p & flag_mask(f) != 0
}

/// The packed byte `p` with flag `f` set to `v` and every other bit kept.
pub open spec fn with_flag(p: u8, f: Flag, v: bool) -> u8 {
    if v {
        p | flag_mask(f)
    } else {
        p & !flag_mask(f)
    }
}

/// The packed byte `p` with Z and N set from the 8-bit value `v`.
pub open spec fn with_zn(p: u8, v: u8) -> u8 {
    with_flag(with_flag(p, Flag::Zero, v == 0), Flag::Negative, v & 0x80 != 0)
}

/// The value of the register after reset: I and Unused set, B set as stored, all else clear.
pub const INITIAL_STATUS: u8 = 0x34;

impl Flag {
    /// The single-bit mask of this flag.
    pub fn mask(self) -> (r: u8)
        ensures
            r == flag_mask(self),
    {
        match self {
            Flag::Carry => 0x01,
            Flag::Zero => 0x02,
            Flag::InterruptDisable => 0x04,
            Flag::DecimalMode => 0x08,
            Flag::Break => 0x10,
            Flag::Unused => 0x20,
            Flag::Overflow => 0x40,
            Flag::Negative => 0x80,
        }
    }
}

/// The status register: eight flags packed in one byte.
#[derive(Debug, Clone, Copy, PartialEq, Eq, Structural)]
pub struct StatusRegister {
    flags: u8,
}

impl View for StatusRegister {
    type V = u8;

    closed spec fn view(&self) -> u8 {
        self.flags
    }
}

impl StatusRegister {
    /// The register as reset leaves it.
    pub fn new() -> (r: Self)
        ensures
            r@ == INITIAL_STATUS,
    {
        StatusRegister { flags: INITIAL_STATUS }
    }

    /// Sets `flag` to `value`, leaving every other bit as it was.
    pub fn set(&mut self, flag: Flag, value: bool)
        ensures
            final(self)@ == with_flag(old(self)@, flag, value),
    {
        if value {
            self.flags = self.flags | flag.mask();
        } else {
            self.flags = self.flags & !flag.mask();
        }
    }

    /// Whether `flag` is set.
    pub fn get(&self, flag: Flag) -> (r: bool)
        ensures
            r == flag_of(self@, flag),
    {
        (self.flags & flag.mask()) != 0
    }

    /// The packed byte, verbatim.
    pub fn to_byte(&self) -> (r: u8)
        ensures
            r == self@,
    {
        self.flags
    }

    /// Overwrites all eight bits with `value`, verbatim.
    pub fn from_byte(&mut self, value: u8)
        ensures
            final(self)@ == value,
    {
        self.flags = value;
    }

    /// Sets Z when `value` is zero and N when bit 7 of `value` is set.
    pub fn update_zero_negative(&mut self, value: u8)
        ensures
            final(self)@ == with_zn(old(self)@, value),
            flag_of(final(self)@, Flag::Zero) == (value == 0),
            flag_of(final(self)@, Flag::Negative) == (value >= 0x80),
    {
        self.set(Flag::Zero, value == 0);
        self.set(Flag::Negative, (value & 0x80) != 0);
        proof {
            lemma_zn_reads_back(old(self)@, value);
        }
    }
}

impl Default for StatusRegister {
    fn default() -> (r: Self)
        ensures
            r@ == INITIAL_STATUS,
    {
        Self::new()
    }
}

/// After Z and N are set from `v`, reading them back gives `v == 0` and bit 7 of `v`.
pub proof fn lemma_zn_reads_back(p: u8, v: u8)
    ensures
        flag_of(with_zn(p, v), Flag::Zero) == (v == 0),
        flag_of(with_zn(p, v), Flag::Negative) == (v >= 0x80),
{
    let z = v == 0;
    let n = v & 0x80 != 0;
    assert((v & 0x80 != 0) == (v >= 0x80)) by (bit_vector);
    let q = with_flag(p, Flag::Zero, z);
    assert(q & 0x02 != 0 <==> z) by (bit_vector)
        requires q == (if z { p | 0x02 } else { p & !0x02u8 });
    let r = with_flag(q, Flag::Negative, n);
    assert((r & 0x02 != 0) == (q & 0x02 != 0) && (r & 0x80 != 0 <==> n)) by (bit_vector)
        requires r == (if n { q | 0x80 } else { q & !0x80u8 });
}

/// Setting one flag changes that flag to the value given and leaves every other flag as it was.
pub broadcast proof fn lemma_flag_update(p: u8, f: Flag, v: bool, g: Flag)
    ensures
        #[trigger] flag_of(with_flag(p, f, v), g) == if f == g {
            v
        } else {
            flag_of(p, g)
        },
{
    let mf = flag_mask(f);
    let mg = flag_mask(g);
    if f == g {
        assert((p | mf) & mf != 0 && (p & !mf) & mf == 0) by (bit_vector)
            requires mf != 0u8;
    } else {
        assert(mf != mg);
        assert(((p | mf) & mg != 0) == (p & mg != 0) && ((p & !mf) & mg != 0) == (p & mg != 0))
            by (bit_vector)
            requires
                mf == 1u8 || mf == 2u8 || mf == 4u8 || mf == 8u8 || mf == 16u8 || mf == 32u8
                    || mf == 64u8 || mf == 128u8,
                mg == 1u8 || mg == 2u8 || mg == 4u8 || mg == 8u8 || mg == 16u8 || mg == 32u8
                    || mg == 64u8 || mg == 128u8,
                mf != mg,
        ;
    }
}

/// A register `t` that unpacks (`from_byte`) the byte that `s` packs (`to_byte`) holds the
/// same byte, so it reads every flag as `s` does, B included.
pub proof fn lemma_pack_unpack(s: StatusRegister, t: StatusRegister)
    requires
        t@ == s@,
    ensures
        forall|f: Flag| flag_of(t@, f) == #[trigger] flag_of(s@, f),
{
}

} // verus!
