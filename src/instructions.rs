//! The instruction set: the 256-entry opcode table and the mnemonics it decodes to.

use vstd::prelude::*;
use crate::addressing::{AddressingMode, operand_len};

verus! {

/// The operation an opcode performs; every byte that is no legal opcode decodes to `Illegal`,
/// which behaves as a two-cycle no-op.
#[derive(Debug, Clone, Copy, PartialEq, Eq, Structural)]
pub enum Instruction {
    Adc,
    And,
    Asl,
    Bcc,
    Bcs,
    Beq,
    Bit,
    Bmi,
    Bne,
    Bpl,
    Brk,
    Bvc,
    Bvs,
    Clc,
    Cld,
    Cli,
    Clv,
    Cmp,
    Cpx,
    Cpy,
    Dec,
    Dex,
    Dey,
    Eor,
    Inc,
    Inx,
    Iny,
    Jmp,
    Jsr,
    Lda,
    Ldx,
    Ldy,
    Lsr,
    Nop,
    Ora,
    Pha,
    Php,
    Pla,
    Plp,
    Rol,
    Ror,
    Rti,
    Rts,
    Sbc,
    Sec,
    Sed,
    Sei,
    Sta,
    Stx,
    Sty,
    Tax,
    Tay,
    Tsx,
    Txa,
    Txs,
    Tya,
    Illegal,
}

/// The three-letter name of an instruction, `???` for an illegal opcode.
pub open spec fn mnemonic_of(i: Instruction) -> &'static str {
    match i {
        Instruction::Adc => "ADC",
        Instruction::And => "AND",
        Instruction::Asl => "ASL",
        Instruction::Bcc => "BCC",
        Instruction::Bcs => "BCS",
        Instruction::Beq => "BEQ",
        Instruction::Bit => "BIT",
        Instruction::Bmi => "BMI",
        Instruction::Bne => "BNE",
        Instruction::Bpl => "BPL",
        Instruction::Brk => "BRK",
        Instruction::Bvc => "BVC",
        Instruction::Bvs => "BVS",
        Instruction::Clc => "CLC",
        Instruction::Cld => "CLD",
        Instruction::Cli => "CLI",
        Instruction::Clv => "CLV",
        Instruction::Cmp => "CMP",
        Instruction::Cpx => "CPX",
        Instruction::Cpy => "CPY",
        Instruction::Dec => "DEC",
        Instruction::Dex => "DEX",
        Instruction::Dey => "DEY",
        Instruction::Eor => "EOR",
        Instruction::Inc => "INC",
        Instruction::Inx => "INX",
        Instruction::Iny => "INY",
        Instruction::Jmp => "JMP",
        Instruction::Jsr => "JSR",
        Instruction::Lda => "LDA",
        Instruction::Ldx => "LDX",
        Instruction::Ldy => "LDY",
        Instruction::Lsr => "LSR",
        Instruction::Nop => "NOP",
        Instruction::Ora => "ORA",
        Instruction::Pha => "PHA",
        Instruction::Php => "PHP",
        Instruction::Pla => "PLA",
        Instruction::Plp => "PLP",
        Instruction::Rol => "ROL",
        Instruction::Ror => "ROR",
        Instruction::Rti => "RTI",
        Instruction::Rts => "RTS",
        Instruction::Sbc => "SBC",
        Instruction::Sec => "SEC",
        Instruction::Sed => "SED",
        Instruction::Sei => "SEI",
        Instruction::Sta => "STA",
        Instruction::Stx => "STX",
        Instruction::Sty => "STY",
        Instruction::Tax => "TAX",
        Instruction::Tay => "TAY",
        Instruction::Tsx => "TSX",
        Instruction::Txa => "TXA",
        Instruction::Txs => "TXS",
        Instruction::Tya => "TYA",
        Instruction::Illegal => "???",
    }
}

impl Instruction {
    /// The three-letter name of this instruction.
    pub fn mnemonic(self) -> (r: &'static str)
        ensures
            r == mnemonic_of(self),
    {
        match self {
        Instruction::Adc => "ADC",
        Instruction::And => "AND",
        Instruction::Asl => "ASL",
        Instruction::Bcc => "BCC",
        Instruction::Bcs => "BCS",
        Instruction::Beq => "BEQ",
        Instruction::Bit => "BIT",
        Instruction::Bmi => "BMI",
        Instruction::Bne => "BNE",
        Instruction::Bpl => "BPL",
        Instruction::Brk => "BRK",
        Instruction::Bvc => "BVC",
        Instruction::Bvs => "BVS",
        Instruction::Clc => "CLC",
        Instruction::Cld => "CLD",
        Instruction::Cli => "CLI",
        Instruction::Clv => "CLV",
        Instruction::Cmp => "CMP",
        Instruction::Cpx => "CPX",
        Instruction::Cpy => "CPY",
        Instruction::Dec => "DEC",
        Instruction::Dex => "DEX",
        Instruction::Dey => "DEY",
        Instruction::Eor => "EOR",
        Instruction::Inc => "INC",
        Instruction::Inx => "INX",
        Instruction::Iny => "INY",
        Instruction::Jmp => "JMP",
        Instruction::Jsr => "JSR",
        Instruction::Lda => "LDA",
        Instruction::Ldx => "LDX",
        Instruction::Ldy => "LDY",
        Instruction::Lsr => "LSR",
        Instruction::Nop => "NOP",
        Instruction::Ora => "ORA",
        Instruction::Pha => "PHA",
        Instruction::Php => "PHP",
        Instruction::Pla => "PLA",
        Instruction::Plp => "PLP",
        Instruction::Rol => "ROL",
        Instruction::Ror => "ROR",
        Instruction::Rti => "RTI",
        Instruction::Rts => "RTS",
        Instruction::Sbc => "SBC",
        Instruction::Sec => "SEC",
        Instruction::Sed => "SED",
        Instruction::Sei => "SEI",
        Instruction::Sta => "STA",
        Instruction::Stx => "STX",
        Instruction::Sty => "STY",
        Instruction::Tax => "TAX",
        Instruction::Tay => "TAY",
        Instruction::Tsx => "TSX",
        Instruction::Txa => "TXA",
        Instruction::Txs => "TXS",
        Instruction::Tya => "TYA",
            Instruction::Illegal => "???",
        }
    }
}

/// What the table holds for an opcode byte: its instruction, addressing mode, base cycles,
/// and whether a page crossing in address resolution costs one more cycle.
pub open spec fn decode_spec(code: u8) -> (Instruction, AddressingMode, u8, bool) {
    match code {
        0xA9 => (Instruction::Lda, AddressingMode::Immediate, 2, false),
        0xA5 => (Instruction::Lda, AddressingMode::ZeroPage, 3, false),
        0xB5 => (Instruction::Lda, AddressingMode::ZeroPageX, 4, false),
        0xAD => (Instruction::Lda, AddressingMode::Absolute, 4, false),
        0xBD => (Instruction::Lda, AddressingMode::AbsoluteX, 4, true),
        0xB9 => (Instruction::Lda, AddressingMode::AbsoluteY, 4, true),
        0xA1 => (Instruction::Lda, AddressingMode::IndirectX, 6, false),
        0xB1 => (Instruction::Lda, AddressingMode::IndirectY, 5, true),

        0xA2 => (Instruction::Ldx, AddressingMode::Immediate, 2, false),
        0xA6 => (Instruction::Ldx, AddressingMode::ZeroPage, 3, false),
        0xB6 => (Instruction::Ldx, AddressingMode::ZeroPageY, 4, false),
        0xAE => (Instruction::Ldx, AddressingMode::Absolute, 4, false),
        0xBE => (Instruction::Ldx, AddressingMode::AbsoluteY, 4, true),

        0xA0 => (Instruction::Ldy, AddressingMode::Immediate, 2, false),
        0xA4 => (Instruction::Ldy, AddressingMode::ZeroPage, 3, false),
        0xB4 => (Instruction::Ldy, AddressingMode::ZeroPageX, 4, false),
        0xAC => (Instruction::Ldy, AddressingMode::Absolute, 4, false),
        0xBC => (Instruction::Ldy, AddressingMode::AbsoluteX, 4, true),

        0x85 => (Instruction::Sta, AddressingMode::ZeroPage, 3, false),
        0x95 => (Instruction::Sta, AddressingMode::ZeroPageX, 4, false),
        0x8D => (Instruction::Sta, AddressingMode::Absolute, 4, false),
        0x9D => (Instruction::Sta, AddressingMode::AbsoluteX, 5, false),
        0x99 => (Instruction::Sta, AddressingMode::AbsoluteY, 5, false),
        0x81 => (Instruction::Sta, AddressingMode::IndirectX, 6, false),
        0x91 => (Instruction::Sta, AddressingMode::IndirectY, 6, false),

        0x86 => (Instruction::Stx, AddressingMode::ZeroPage, 3, false),
        0x96 => (Instruction::Stx, AddressingMode::ZeroPageY, 4, false),
        0x8E => (Instruction::Stx, AddressingMode::Absolute, 4, false),

        0x84 => (Instruction::Sty, AddressingMode::ZeroPage, 3, false),
        0x94 => (Instruction::Sty, AddressingMode::ZeroPageX, 4, false),
        0x8C => (Instruction::Sty, AddressingMode::Absolute, 4, false),

        0xAA => (Instruction::Tax, AddressingMode::Implied, 2, false),

        0xA8 => (Instruction::Tay, AddressingMode::Implied, 2, false),

        0x8A => (Instruction::Txa, AddressingMode::Implied, 2, false),

        0x98 => (Instruction::Tya, AddressingMode::Implied, 2, false),

        0xBA => (Instruction::Tsx, AddressingMode::Implied, 2, false),

        0x9A => (Instruction::Txs, AddressingMode::Implied, 2, false),

        0x48 => (Instruction::Pha, AddressingMode::Implied, 3, false),

        0x68 => (Instruction::Pla, AddressingMode::Implied, 4, false),

        0x08 => (Instruction::Php, AddressingMode::Implied, 3, false),

        0x28 => (Instruction::Plp, AddressingMode::Implied, 4, false),

        0x69 => (Instruction::Adc, AddressingMode::Immediate, 2, false),
        0x65 => (Instruction::Adc, AddressingMode::ZeroPage, 3, false),
        0x75 => (Instruction::Adc, AddressingMode::ZeroPageX, 4, false),
        0x6D => (Instruction::Adc, AddressingMode::Absolute, 4, false),
        0x7D => (Instruction::Adc, AddressingMode::AbsoluteX, 4, true),
        0x79 => (Instruction::Adc, AddressingMode::AbsoluteY, 4, true),
        0x61 => (Instruction::Adc, AddressingMode::IndirectX, 6, false),
        0x71 => (Instruction::Adc, AddressingMode::IndirectY, 5, true),

        0xE9 => (Instruction::Sbc, AddressingMode::Immediate, 2, false),
        0xE5 => (Instruction::Sbc, AddressingMode::ZeroPage, 3, false),
        0xF5 => (Instruction::Sbc, AddressingMode::ZeroPageX, 4, false),
        0xED => (Instruction::Sbc, AddressingMode::Absolute, 4, false),
        0xFD => (Instruction::Sbc, AddressingMode::AbsoluteX, 4, true),
        0xF9 => (Instruction::Sbc, AddressingMode::AbsoluteY, 4, true),
        0xE1 => (Instruction::Sbc, AddressingMode::IndirectX, 6, false),
        0xF1 => (Instruction::Sbc, AddressingMode::IndirectY, 5, true),

        0xC9 => (Instruction::Cmp, AddressingMode::Immediate, 2, false),
        0xC5 => (Instruction::Cmp, AddressingMode::ZeroPage, 3, false),
        0xD5 => (Instruction::Cmp, AddressingMode::ZeroPageX, 4, false),
        0xCD => (Instruction::Cmp, AddressingMode::Absolute, 4, false),
        0xDD => (Instruction::Cmp, AddressingMode::AbsoluteX, 4, true),
        0xD9 => (Instruction::Cmp, AddressingMode::AbsoluteY, 4, true),
        0xC1 => (Instruction::Cmp, AddressingMode::IndirectX, 6, false),
        0xD1 => (Instruction::Cmp, AddressingMode::IndirectY, 5, true),

        0xE0 => (Instruction::Cpx, AddressingMode::Immediate, 2, false),
        0xE4 => (Instruction::Cpx, AddressingMode::ZeroPage, 3, false),
        0xEC => (Instruction::Cpx, AddressingMode::Absolute, 4, false),

        0xC0 => (Instruction::Cpy, AddressingMode::Immediate, 2, false),
        0xC4 => (Instruction::Cpy, AddressingMode::ZeroPage, 3, false),
        0xCC => (Instruction::Cpy, AddressingMode::Absolute, 4, false),

        0x29 => (Instruction::And, AddressingMode::Immediate, 2, false),
        0x25 => (Instruction::And, AddressingMode::ZeroPage, 3, false),
        0x35 => (Instruction::And, AddressingMode::ZeroPageX, 4, false),
        0x2D => (Instruction::And, AddressingMode::Absolute, 4, false),
        0x3D => (Instruction::And, AddressingMode::AbsoluteX, 4, true),
        0x39 => (Instruction::And, AddressingMode::AbsoluteY, 4, true),
        0x21 => (Instruction::And, AddressingMode::IndirectX, 6, false),
        0x31 => (Instruction::And, AddressingMode::IndirectY, 5, true),

        0x09 => (Instruction::Ora, AddressingMode::Immediate, 2, false),
        0x05 => (Instruction::Ora, AddressingMode::ZeroPage, 3, false),
        0x15 => (Instruction::Ora, AddressingMode::ZeroPageX, 4, false),
        0x0D => (Instruction::Ora, AddressingMode::Absolute, 4, false),
        0x1D => (Instruction::Ora, AddressingMode::AbsoluteX, 4, true),
        0x19 => (Instruction::Ora, AddressingMode::AbsoluteY, 4, true),
        0x01 => (Instruction::Ora, AddressingMode::IndirectX, 6, false),
        0x11 => (Instruction::Ora, AddressingMode::IndirectY, 5, true),

        0x49 => (Instruction::Eor, AddressingMode::Immediate, 2, false),
        0x45 => (Instruction::Eor, AddressingMode::ZeroPage, 3, false),
        0x55 => (Instruction::Eor, AddressingMode::ZeroPageX, 4, false),
        0x4D => (Instruction::Eor, AddressingMode::Absolute, 4, false),
        0x5D => (Instruction::Eor, AddressingMode::AbsoluteX, 4, true),
        0x59 => (Instruction::Eor, AddressingMode::AbsoluteY, 4, true),
        0x41 => (Instruction::Eor, AddressingMode::IndirectX, 6, false),
        0x51 => (Instruction::Eor, AddressingMode::IndirectY, 5, true),

        0x24 => (Instruction::Bit, AddressingMode::ZeroPage, 3, false),
        0x2C => (Instruction::Bit, AddressingMode::Absolute, 4, false),

        0x0A => (Instruction::Asl, AddressingMode::Accumulator, 2, false),
        0x06 => (Instruction::Asl, AddressingMode::ZeroPage, 5, false),
        0x16 => (Instruction::Asl, AddressingMode::ZeroPageX, 6, false),
        0x0E => (Instruction::Asl, AddressingMode::Absolute, 6, false),
        0x1E => (Instruction::Asl, AddressingMode::AbsoluteX, 7, false),

        0x4A => (Instruction::Lsr, AddressingMode::Accumulator, 2, false),
        0x46 => (Instruction::Lsr, AddressingMode::ZeroPage, 5, false),
        0x56 => (Instruction::Lsr, AddressingMode::ZeroPageX, 6, false),
        0x4E => (Instruction::Lsr, AddressingMode::Absolute, 6, false),
        0x5E => (Instruction::Lsr, AddressingMode::AbsoluteX, 7, false),

        0x2A => (Instruction::Rol, AddressingMode::Accumulator, 2, false),
        0x26 => (Instruction::Rol, AddressingMode::ZeroPage, 5, false),
        0x36 => (Instruction::Rol, AddressingMode::ZeroPageX, 6, false),
        0x2E => (Instruction::Rol, AddressingMode::Absolute, 6, false),
        0x3E => (Instruction::Rol, AddressingMode::AbsoluteX, 7, false),

        0x6A => (Instruction::Ror, AddressingMode::Accumulator, 2, false),
        0x66 => (Instruction::Ror, AddressingMode::ZeroPage, 5, false),
        0x76 => (Instruction::Ror, AddressingMode::ZeroPageX, 6, false),
        0x6E => (Instruction::Ror, AddressingMode::Absolute, 6, false),
        0x7E => (Instruction::Ror, AddressingMode::AbsoluteX, 7, false),

        0xE6 => (Instruction::Inc, AddressingMode::ZeroPage, 5, false),
        0xF6 => (Instruction::Inc, AddressingMode::ZeroPageX, 6, false),
        0xEE => (Instruction::Inc, AddressingMode::Absolute, 6, false),
        0xFE => (Instruction::Inc, AddressingMode::AbsoluteX, 7, false),

        0xC6 => (Instruction::Dec, AddressingMode::ZeroPage, 5, false),
        0xD6 => (Instruction::Dec, AddressingMode::ZeroPageX, 6, false),
        0xCE => (Instruction::Dec, AddressingMode::Absolute, 6, false),
        0xDE => (Instruction::Dec, AddressingMode::AbsoluteX, 7, false),

        0xE8 => (Instruction::Inx, AddressingMode::Implied, 2, false),

        0xCA => (Instruction::Dex, AddressingMode::Implied, 2, false),

        0xC8 => (Instruction::Iny, AddressingMode::Implied, 2, false),

        0x88 => (Instruction::Dey, AddressingMode::Implied, 2, false),

        0x4C => (Instruction::Jmp, AddressingMode::Absolute, 3, false),
        0x6C => (Instruction::Jmp, AddressingMode::Indirect, 5, false),

        0x20 => (Instruction::Jsr, AddressingMode::Absolute, 6, false),

        0x60 => (Instruction::Rts, AddressingMode::Implied, 6, false),

        0x00 => (Instruction::Brk, AddressingMode::Implied, 7, false),

        0x40 => (Instruction::Rti, AddressingMode::Implied, 6, false),

        0x90 => (Instruction::Bcc, AddressingMode::Relative, 2, true),

        0xB0 => (Instruction::Bcs, AddressingMode::Relative, 2, true),

        0xF0 => (Instruction::Beq, AddressingMode::Relative, 2, true),

        0xD0 => (Instruction::Bne, AddressingMode::Relative, 2, true),

        0x30 => (Instruction::Bmi, AddressingMode::Relative, 2, true),

        0x10 => (Instruction::Bpl, AddressingMode::Relative, 2, true),

        0x50 => (Instruction::Bvc, AddressingMode::Relative, 2, true),

        0x70 => (Instruction::Bvs, AddressingMode::Relative, 2, true),

        0x18 => (Instruction::Clc, AddressingMode::Implied, 2, false),

        0x38 => (Instruction::Sec, AddressingMode::Implied, 2, false),

        0x58 => (Instruction::Cli, AddressingMode::Implied, 2, false),

        0x78 => (Instruction::Sei, AddressingMode::Implied, 2, false),

        0xD8 => (Instruction::Cld, AddressingMode::Implied, 2, false),

        0xF8 => (Instruction::Sed, AddressingMode::Implied, 2, false),

        0xB8 => (Instruction::Clv, AddressingMode::Implied, 2, false),

        0xEA => (Instruction::Nop, AddressingMode::Implied, 2, false),

        _ => (Instruction::Illegal, AddressingMode::Implied, 2, false),
    }
}

/// Everything the decoder knows of one opcode byte.
#[derive(Debug, Clone, Copy)]
pub struct Opcode {
    /// The opcode byte.
    pub code: u8,
    /// The instruction's name, such as `LDA`.
    pub mnemonic: &'static str,
    /// The operation performed.
    pub instruction: Instruction,
    /// How the operand is found.
    pub mode: AddressingMode,
    /// The instruction's length in bytes, opcode included.
    pub bytes: u8,
    /// Base number of cycles.
    pub cycles: u8,
    /// Whether a page crossing during address resolution adds a cycle.
    pub page_boundary_cycle: bool,
}

impl Opcode {
    /// An entry with the given fields; the mnemonic is the instruction's name.
    pub fn new(
        code: u8,
        instruction: Instruction,
        mode: AddressingMode,
        bytes: u8,
        cycles: u8,
        page_boundary_cycle: bool,
    ) -> (r: Opcode)
        ensures
            r.code == code,
            r.mnemonic == mnemonic_of(instruction),
            r.instruction == instruction,
            r.mode == mode,
            r.bytes == bytes,
            r.cycles == cycles,
            r.page_boundary_cycle == page_boundary_cycle,
    {
        Opcode {
            code,
            mnemonic: instruction.mnemonic(),
            instruction,
            mode,
            bytes,
            cycles,
            page_boundary_cycle,
        }
    }
}

/// The table entry of `code` as instruction, mode, base cycles and page-crossing flag.
fn decode(code: u8) -> (r: (Instruction, AddressingMode, u8, bool))
    ensures
        r == decode_spec(code),
{
    match code {
        0xA9 => (Instruction::Lda, AddressingMode::Immediate, 2, false),
        0xA5 => (Instruction::Lda, AddressingMode::ZeroPage, 3, false),
        0xB5 => (Instruction::Lda, AddressingMode::ZeroPageX, 4, false),
        0xAD => (Instruction::Lda, AddressingMode::Absolute, 4, false),
        0xBD => (Instruction::Lda, AddressingMode::AbsoluteX, 4, true),
        0xB9 => (Instruction::Lda, AddressingMode::AbsoluteY, 4, true),
        0xA1 => (Instruction::Lda, AddressingMode::IndirectX, 6, false),
        0xB1 => (Instruction::Lda, AddressingMode::IndirectY, 5, true),

        0xA2 => (Instruction::Ldx, AddressingMode::Immediate, 2, false),
        0xA6 => (Instruction::Ldx, AddressingMode::ZeroPage, 3, false),
        0xB6 => (Instruction::Ldx, AddressingMode::ZeroPageY, 4, false),
        0xAE => (Instruction::Ldx, AddressingMode::Absolute, 4, false),
        0xBE => (Instruction::Ldx, AddressingMode::AbsoluteY, 4, true),

        0xA0 => (Instruction::Ldy, AddressingMode::Immediate, 2, false),
        0xA4 => (Instruction::Ldy, AddressingMode::ZeroPage, 3, false),
        0xB4 => (Instruction::Ldy, AddressingMode::ZeroPageX, 4, false),
        0xAC => (Instruction::Ldy, AddressingMode::Absolute, 4, false),
        0xBC => (Instruction::Ldy, AddressingMode::AbsoluteX, 4, true),

        0x85 => (Instruction::Sta, AddressingMode::ZeroPage, 3, false),
        0x95 => (Instruction::Sta, AddressingMode::ZeroPageX, 4, false),
        0x8D => (Instruction::Sta, AddressingMode::Absolute, 4, false),
        0x9D => (Instruction::Sta, AddressingMode::AbsoluteX, 5, false),
        0x99 => (Instruction::Sta, AddressingMode::AbsoluteY, 5, false),
        0x81 => (Instruction::Sta, AddressingMode::IndirectX, 6, false),
        0x91 => (Instruction::Sta, AddressingMode::IndirectY, 6, false),

        0x86 => (Instruction::Stx, AddressingMode::ZeroPage, 3, false),
        0x96 => (Instruction::Stx, AddressingMode::ZeroPageY, 4, false),
        0x8E => (Instruction::Stx, AddressingMode::Absolute, 4, false),

        0x84 => (Instruction::Sty, AddressingMode::ZeroPage, 3, false),
        0x94 => (Instruction::Sty, AddressingMode::ZeroPageX, 4, false),
        0x8C => (Instruction::Sty, AddressingMode::Absolute, 4, false),

        0xAA => (Instruction::Tax, AddressingMode::Implied, 2, false),

        0xA8 => (Instruction::Tay, AddressingMode::Implied, 2, false),

        0x8A => (Instruction::Txa, AddressingMode::Implied, 2, false),

        0x98 => (Instruction::Tya, AddressingMode::Implied, 2, false),

        0xBA => (Instruction::Tsx, AddressingMode::Implied, 2, false),

        0x9A => (Instruction::Txs, AddressingMode::Implied, 2, false),

        0x48 => (Instruction::Pha, AddressingMode::Implied, 3, false),

        0x68 => (Instruction::Pla, AddressingMode::Implied, 4, false),

        0x08 => (Instruction::Php, AddressingMode::Implied, 3, false),

        0x28 => (Instruction::Plp, AddressingMode::Implied, 4, false),

        0x69 => (Instruction::Adc, AddressingMode::Immediate, 2, false),
        0x65 => (Instruction::Adc, AddressingMode::ZeroPage, 3, false),
        0x75 => (Instruction::Adc, AddressingMode::ZeroPageX, 4, false),
        0x6D => (Instruction::Adc, AddressingMode::Absolute, 4, false),
        0x7D => (Instruction::Adc, AddressingMode::AbsoluteX, 4, true),
        0x79 => (Instruction::Adc, AddressingMode::AbsoluteY, 4, true),
        0x61 => (Instruction::Adc, AddressingMode::IndirectX, 6, false),
        0x71 => (Instruction::Adc, AddressingMode::IndirectY, 5, true),

        0xE9 => (Instruction::Sbc, AddressingMode::Immediate, 2, false),
        0xE5 => (Instruction::Sbc, AddressingMode::ZeroPage, 3, false),
        0xF5 => (Instruction::Sbc, AddressingMode::ZeroPageX, 4, false),
        0xED => (Instruction::Sbc, AddressingMode::Absolute, 4, false),
        0xFD => (Instruction::Sbc, AddressingMode::AbsoluteX, 4, true),
        0xF9 => (Instruction::Sbc, AddressingMode::AbsoluteY, 4, true),
        0xE1 => (Instruction::Sbc, AddressingMode::IndirectX, 6, false),
        0xF1 => (Instruction::Sbc, AddressingMode::IndirectY, 5, true),

        0xC9 => (Instruction::Cmp, AddressingMode::Immediate, 2, false),
        0xC5 => (Instruction::Cmp, AddressingMode::ZeroPage, 3, false),
        0xD5 => (Instruction::Cmp, AddressingMode::ZeroPageX, 4, false),
        0xCD => (Instruction::Cmp, AddressingMode::Absolute, 4, false),
        0xDD => (Instruction::Cmp, AddressingMode::AbsoluteX, 4, true),
        0xD9 => (Instruction::Cmp, AddressingMode::AbsoluteY, 4, true),
        0xC1 => (Instruction::Cmp, AddressingMode::IndirectX, 6, false),
        0xD1 => (Instruction::Cmp, AddressingMode::IndirectY, 5, true),

        0xE0 => (Instruction::Cpx, AddressingMode::Immediate, 2, false),
        0xE4 => (Instruction::Cpx, AddressingMode::ZeroPage, 3, false),
        0xEC => (Instruction::Cpx, AddressingMode::Absolute, 4, false),

        0xC0 => (Instruction::Cpy, AddressingMode::Immediate, 2, false),
        0xC4 => (Instruction::Cpy, AddressingMode::ZeroPage, 3, false),
        0xCC => (Instruction::Cpy, AddressingMode::Absolute, 4, false),

        0x29 => (Instruction::And, AddressingMode::Immediate, 2, false),
        0x25 => (Instruction::And, AddressingMode::ZeroPage, 3, false),
        0x35 => (Instruction::And, AddressingMode::ZeroPageX, 4, false),
        0x2D => (Instruction::And, AddressingMode::Absolute, 4, false),
        0x3D => (Instruction::And, AddressingMode::AbsoluteX, 4, true),
        0x39 => (Instruction::And, AddressingMode::AbsoluteY, 4, true),
        0x21 => (Instruction::And, AddressingMode::IndirectX, 6, false),
        0x31 => (Instruction::And, AddressingMode::IndirectY, 5, true),

        0x09 => (Instruction::Ora, AddressingMode::Immediate, 2, false),
        0x05 => (Instruction::Ora, AddressingMode::ZeroPage, 3, false),
        0x15 => (Instruction::Ora, AddressingMode::ZeroPageX, 4, false),
        0x0D => (Instruction::Ora, AddressingMode::Absolute, 4, false),
        0x1D => (Instruction::Ora, AddressingMode::AbsoluteX, 4, true),
        0x19 => (Instruction::Ora, AddressingMode::AbsoluteY, 4, true),
        0x01 => (Instruction::Ora, AddressingMode::IndirectX, 6, false),
        0x11 => (Instruction::Ora, AddressingMode::IndirectY, 5, true),

        0x49 => (Instruction::Eor, AddressingMode::Immediate, 2, false),
        0x45 => (Instruction::Eor, AddressingMode::ZeroPage, 3, false),
        0x55 => (Instruction::Eor, AddressingMode::ZeroPageX, 4, false),
        0x4D => (Instruction::Eor, AddressingMode::Absolute, 4, false),
        0x5D => (Instruction::Eor, AddressingMode::AbsoluteX, 4, true),
        0x59 => (Instruction::Eor, AddressingMode::AbsoluteY, 4, true),
        0x41 => (Instruction::Eor, AddressingMode::IndirectX, 6, false),
        0x51 => (Instruction::Eor, AddressingMode::IndirectY, 5, true),

        0x24 => (Instruction::Bit, AddressingMode::ZeroPage, 3, false),
        0x2C => (Instruction::Bit, AddressingMode::Absolute, 4, false),

        0x0A => (Instruction::Asl, AddressingMode::Accumulator, 2, false),
        0x06 => (Instruction::Asl, AddressingMode::ZeroPage, 5, false),
        0x16 => (Instruction::Asl, AddressingMode::ZeroPageX, 6, false),
        0x0E => (Instruction::Asl, AddressingMode::Absolute, 6, false),
        0x1E => (Instruction::Asl, AddressingMode::AbsoluteX, 7, false),

        0x4A => (Instruction::Lsr, AddressingMode::Accumulator, 2, false),
        0x46 => (Instruction::Lsr, AddressingMode::ZeroPage, 5, false),
        0x56 => (Instruction::Lsr, AddressingMode::ZeroPageX, 6, false),
        0x4E => (Instruction::Lsr, AddressingMode::Absolute, 6, false),
        0x5E => (Instruction::Lsr, AddressingMode::AbsoluteX, 7, false),

        0x2A => (Instruction::Rol, AddressingMode::Accumulator, 2, false),
        0x26 => (Instruction::Rol, AddressingMode::ZeroPage, 5, false),
        0x36 => (Instruction::Rol, AddressingMode::ZeroPageX, 6, false),
        0x2E => (Instruction::Rol, AddressingMode::Absolute, 6, false),
        0x3E => (Instruction::Rol, AddressingMode::AbsoluteX, 7, false),

        0x6A => (Instruction::Ror, AddressingMode::Accumulator, 2, false),
        0x66 => (Instruction::Ror, AddressingMode::ZeroPage, 5, false),
        0x76 => (Instruction::Ror, AddressingMode::ZeroPageX, 6, false),
        0x6E => (Instruction::Ror, AddressingMode::Absolute, 6, false),
        0x7E => (Instruction::Ror, AddressingMode::AbsoluteX, 7, false),

        0xE6 => (Instruction::Inc, AddressingMode::ZeroPage, 5, false),
        0xF6 => (Instruction::Inc, AddressingMode::ZeroPageX, 6, false),
        0xEE => (Instruction::Inc, AddressingMode::Absolute, 6, false),
        0xFE => (Instruction::Inc, AddressingMode::AbsoluteX, 7, false),

        0xC6 => (Instruction::Dec, AddressingMode::ZeroPage, 5, false),
        0xD6 => (Instruction::Dec, AddressingMode::ZeroPageX, 6, false),
        0xCE => (Instruction::Dec, AddressingMode::Absolute, 6, false),
        0xDE => (Instruction::Dec, AddressingMode::AbsoluteX, 7, false),

        0xE8 => (Instruction::Inx, AddressingMode::Implied, 2, false),

        0xCA => (Instruction::Dex, AddressingMode::Implied, 2, false),

        0xC8 => (Instruction::Iny, AddressingMode::Implied, 2, false),

        0x88 => (Instruction::Dey, AddressingMode::Implied, 2, false),

        0x4C => (Instruction::Jmp, AddressingMode::Absolute, 3, false),
        0x6C => (Instruction::Jmp, AddressingMode::Indirect, 5, false),

        0x20 => (Instruction::Jsr, AddressingMode::Absolute, 6, false),

        0x60 => (Instruction::Rts, AddressingMode::Implied, 6, false),

        0x00 => (Instruction::Brk, AddressingMode::Implied, 7, false),

        0x40 => (Instruction::Rti, AddressingMode::Implied, 6, false),

        0x90 => (Instruction::Bcc, AddressingMode::Relative, 2, true),

        0xB0 => (Instruction::Bcs, AddressingMode::Relative, 2, true),

        0xF0 => (Instruction::Beq, AddressingMode::Relative, 2, true),

        0xD0 => (Instruction::Bne, AddressingMode::Relative, 2, true),

        0x30 => (Instruction::Bmi, AddressingMode::Relative, 2, true),

        0x10 => (Instruction::Bpl, AddressingMode::Relative, 2, true),

        0x50 => (Instruction::Bvc, AddressingMode::Relative, 2, true),

        0x70 => (Instruction::Bvs, AddressingMode::Relative, 2, true),

        0x18 => (Instruction::Clc, AddressingMode::Implied, 2, false),

        0x38 => (Instruction::Sec, AddressingMode::Implied, 2, false),

        0x58 => (Instruction::Cli, AddressingMode::Implied, 2, false),

        0x78 => (Instruction::Sei, AddressingMode::Implied, 2, false),

        0xD8 => (Instruction::Cld, AddressingMode::Implied, 2, false),

        0xF8 => (Instruction::Sed, AddressingMode::Implied, 2, false),

        0xB8 => (Instruction::Clv, AddressingMode::Implied, 2, false),

        0xEA => (Instruction::Nop, AddressingMode::Implied, 2, false),

        _ => (Instruction::Illegal, AddressingMode::Implied, 2, false),
    }
}

/// The decoder's entry for an opcode byte. Every byte decodes; the length is one byte of
/// opcode plus the operand bytes of its mode.
pub fn get_opcode(code: u8) -> (r: Opcode)
    ensures
        r.code == code,
        (r.instruction, r.mode, r.cycles, r.page_boundary_cycle) == decode_spec(code),
        r.mnemonic == mnemonic_of(r.instruction),
        r.bytes == 1 + operand_len(r.mode),
        1 <= r.bytes <= 3,
        2 <= r.cycles <= 7,
{
    let (instruction, mode, cycles, page_boundary_cycle) = decode(code);
    let bytes = 1 + mode.operand_bytes();
    Opcode::new(code, instruction, mode, bytes, cycles, page_boundary_cycle)
}

} // verus!
