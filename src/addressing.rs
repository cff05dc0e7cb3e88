//! The thirteen addressing modes and the number of operand bytes each one takes.

use vstd::prelude::*;

verus! {

/// How an instruction's operand bytes produce an effective address or a value.
#[derive(Debug, Clone, Copy, PartialEq, Eq, Structural)]
pub enum AddressingMode {
    Implied,
    Accumulator,
    Immediate,
    ZeroPage,
    ZeroPageX,
    ZeroPageY,
    Absolute,
    AbsoluteX,
    AbsoluteY,
    IndirectX,
    IndirectY,
    Indirect,
    Relative,
}

/// Operand bytes that follow the opcode: none for Implied and Accumulator, two for the
/// absolute family and Indirect, one for every other mode.
pub open spec fn operand_len(m: AddressingMode) -> u8 {
    match m {
        AddressingMode::Implied | AddressingMode::Accumulator => 0,
        AddressingMode::Absolute
        | AddressingMode::AbsoluteX
        | AddressingMode::AbsoluteY
        | AddressingMode::Indirect => 2,
        _ => 1,
    }
}

impl AddressingMode {
    /// The number of operand bytes that follow the opcode in this mode.
    pub fn operand_bytes(&self) -> (r: u8)
        ensures
            r == operand_len(*self),
            r <= 2,
    {
        match self {
            AddressingMode::Implied | AddressingMode::Accumulator => 0,
            AddressingMode::Immediate
            | AddressingMode::ZeroPage
            | AddressingMode::ZeroPageX
            | AddressingMode::ZeroPageY
            | AddressingMode::IndirectX
            | AddressingMode::IndirectY
            | AddressingMode::Relative => 1,
            AddressingMode::Absolute
            | AddressingMode::AbsoluteX
            | AddressingMode::AbsoluteY
            | AddressingMode::Indirect => 2,
        }
    }
}

} // verus!
