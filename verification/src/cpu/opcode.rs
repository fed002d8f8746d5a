//! The opcode table: which byte stands for which instruction.

use vstd::prelude::*;
use crate::cpu::addressing::AddressMode;

verus! {

/// An addressing mode without its operand: what the opcode table records.
#[derive(Clone, Copy, Debug, PartialEq, Eq)]
pub enum ModeKind {
    Immediate,
    ZeroPage,
    ZeroPageX,
    ZeroPageY,
    Relative,
    Absolute,
    AbsoluteX,
    AbsoluteY,
    Indirect,
    IndexedIndirect,
    IndirectIndexed,
}

/// One entry of the opcode table: the mnemonic, and for the mnemonics that
/// take an operand the addressing mode.
#[derive(Clone, Copy, Debug, PartialEq, Eq)]
pub enum Instruction {
    /// Stop the execution loop.
    Brk,
    /// Load the accumulator.
    Lda(ModeKind),
    /// Load `X`.
    Ldx(ModeKind),
    /// Load `Y`.
    Ldy(ModeKind),
    /// Increment `X`.
    Inx,
    /// Increment `Y`.
    Iny,
    /// Copy the accumulator into `X`.
    Tax,
    /// Add to the accumulator.
    Adc(ModeKind),
}

/// The byte that stops the execution loop.
pub const HALT_OPCODE: u8 = 0x00;

impl ModeKind {
    /// How many operand bytes follow an opcode with this mode.
    pub open spec fn spec_operand_len(self) -> u16 {
        match self {
            ModeKind::Absolute | ModeKind::AbsoluteX | ModeKind::AbsoluteY | ModeKind::Indirect => 2,
            _ => 1,
        }
    }

    /// This mode with its operand, taken from the byte and the word that
    /// follow the opcode. The byte of `Relative` is read as two's
    /// complement.
    pub open spec fn spec_with_operand(self, byte: u8, word: u16) -> AddressMode {
        match self {
            ModeKind::Immediate => AddressMode::Immediate(byte),
            ModeKind::ZeroPage => AddressMode::ZeroPage(byte),
            ModeKind::ZeroPageX => AddressMode::ZeroPageX(byte),
            ModeKind::ZeroPageY => AddressMode::ZeroPageY(byte),
            ModeKind::Relative => AddressMode::Relative(
                if byte < 0x80 {
                    byte as i8
                } else {
                    (byte - 0x100) as i8
                },
            ),
            ModeKind::Absolute => AddressMode::Absolute(word),
            ModeKind::AbsoluteX => AddressMode::AbsoluteX(word),
            ModeKind::AbsoluteY => AddressMode::AbsoluteY(word),
            ModeKind::Indirect => AddressMode::Indirect(word),
            ModeKind::IndexedIndirect => AddressMode::IndexedIndirect(byte),
            ModeKind::IndirectIndexed => AddressMode::IndirectIndexed(byte),
        }
    }

    /// How many operand bytes follow an opcode with this mode: one or two.
    #[verifier::when_used_as_spec(spec_operand_len)]
    pub fn operand_len(self) -> (len: u16)
        ensures
            len == self.spec_operand_len(),
    {
        match self {
            ModeKind::Absolute | ModeKind::AbsoluteX | ModeKind::AbsoluteY | ModeKind::Indirect => 2,
            _ => 1,
        }
    }

    /// This mode with its operand: `byte` for the one-byte modes, `word` for
    /// the two-byte modes.
    #[verifier::when_used_as_spec(spec_with_operand)]
    pub fn with_operand(self, byte: u8, word: u16) -> (mode: AddressMode)
        ensures
            mode == self.spec_with_operand(byte, word),
    {
        match self {
            ModeKind::Immediate => AddressMode::Immediate(byte),
            ModeKind::ZeroPage => AddressMode::ZeroPage(byte),
            ModeKind::ZeroPageX => AddressMode::ZeroPageX(byte),
            ModeKind::ZeroPageY => AddressMode::ZeroPageY(byte),
            ModeKind::Relative => {
                if byte < 0x80 {
                    AddressMode::Relative(byte as i8)
                } else {
                    AddressMode::Relative((byte as i16 - 0x100) as i8)
                }
            },
            ModeKind::Absolute => AddressMode::Absolute(word),
            ModeKind::AbsoluteX => AddressMode::AbsoluteX(word),
            ModeKind::AbsoluteY => AddressMode::AbsoluteY(word),
            ModeKind::Indirect => AddressMode::Indirect(word),
            ModeKind::IndexedIndirect => AddressMode::IndexedIndirect(byte),
            ModeKind::IndirectIndexed => AddressMode::IndirectIndexed(byte),
        }
    }
}

impl Instruction {
    /// How many operand bytes follow the opcode of this instruction.
    pub open spec fn spec_operand_len(self) -> u16 {
        match self {
            Instruction::Lda(kind) | Instruction::Ldx(kind) | Instruction::Ldy(kind)
            | Instruction::Adc(kind) => kind.spec_operand_len(),
            _ => 0,
        }
    }

    /// How many operand bytes follow the opcode of this instruction: none
    /// for the mnemonics without an operand, else what the mode takes.
    #[verifier::when_used_as_spec(spec_operand_len)]
    pub fn operand_len(self) -> (len: u16)
        ensures
            len == self.spec_operand_len(),
            len <= 2,
    {
        match self {
            Instruction::Lda(kind) | Instruction::Ldx(kind) | Instruction::Ldy(kind)
            | Instruction::Adc(kind) => kind.operand_len(),
            _ => 0,
        }
    }
}

/// The opcode table. A byte without an entry is no instruction: the
/// execution loop passes over it.
pub open spec fn spec_decode(opcode: u8) -> Option<Instruction> {
    match opcode {
        0x00 => Some(Instruction::Brk),
        0xa9 => Some(Instruction::Lda(ModeKind::Immediate)),
        0xa5 => Some(Instruction::Lda(ModeKind::ZeroPage)),
        0xb5 => Some(Instruction::Lda(ModeKind::ZeroPageX)),
        0xa2 => Some(Instruction::Ldx(ModeKind::Immediate)),
        0xa6 => Some(Instruction::Ldx(ModeKind::ZeroPage)),
        0xa0 => Some(Instruction::Ldy(ModeKind::Immediate)),
        0xa4 => Some(Instruction::Ldy(ModeKind::ZeroPage)),
        0xb4 => Some(Instruction::Ldy(ModeKind::ZeroPageX)),
        0xe8 => Some(Instruction::Inx),
        0xc8 => Some(Instruction::Iny),
        0xaa => Some(Instruction::Tax),
        0x69 => Some(Instruction::Adc(ModeKind::Immediate)),
        0x65 => Some(Instruction::Adc(ModeKind::ZeroPage)),
        0x75 => Some(Instruction::Adc(ModeKind::ZeroPageX)),
        0x6d => Some(Instruction::Adc(ModeKind::Absolute)),
        0x7d => Some(Instruction::Adc(ModeKind::AbsoluteX)),
        0x79 => Some(Instruction::Adc(ModeKind::AbsoluteY)),
        0x61 => Some(Instruction::Adc(ModeKind::IndexedIndirect)),
        0x71 => Some(Instruction::Adc(ModeKind::IndirectIndexed)),
        _ => None,
    }
}

/// Looks `opcode` up in the opcode table.
#[verifier::when_used_as_spec(spec_decode)]
pub fn decode(opcode: u8) -> (entry: Option<Instruction>)
    ensures
        entry == spec_decode(opcode),
{
    match opcode {
        0x00 => Some(Instruction::Brk),
        0xa9 => Some(Instruction::Lda(ModeKind::Immediate)),
        0xa5 => Some(Instruction::Lda(ModeKind::ZeroPage)),
        0xb5 => Some(Instruction::Lda(ModeKind::ZeroPageX)),
        0xa2 => Some(Instruction::Ldx(ModeKind::Immediate)),
        0xa6 => Some(Instruction::Ldx(ModeKind::ZeroPage)),
        0xa0 => Some(Instruction::Ldy(ModeKind::Immediate)),
        0xa4 => Some(Instruction::Ldy(ModeKind::ZeroPage)),
        0xb4 => Some(Instruction::Ldy(ModeKind::ZeroPageX)),
        0xe8 => Some(Instruction::Inx),
        0xc8 => Some(Instruction::Iny),
        0xaa => Some(Instruction::Tax),
        0x69 => Some(Instruction::Adc(ModeKind::Immediate)),
        0x65 => Some(Instruction::Adc(ModeKind::ZeroPage)),
        0x75 => Some(Instruction::Adc(ModeKind::ZeroPageX)),
        0x6d => Some(Instruction::Adc(ModeKind::Absolute)),
        0x7d => Some(Instruction::Adc(ModeKind::AbsoluteX)),
        0x79 => Some(Instruction::Adc(ModeKind::AbsoluteY)),
        0x61 => Some(Instruction::Adc(ModeKind::IndexedIndirect)),
        0x71 => Some(Instruction::Adc(ModeKind::IndirectIndexed)),
        _ => None,
    }
}

/// The halt opcode is the one byte that the table maps to `Brk`.
pub proof fn lemma_halt_opcode_unique(opcode: u8)
    ensures
        spec_decode(opcode) == Some(Instruction::Brk) <==> opcode == HALT_OPCODE,
{
}

} // verus!
