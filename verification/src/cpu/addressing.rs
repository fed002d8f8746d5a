//! The eleven addressing modes and the address that each resolves to.

use vstd::prelude::*;
use crate::cpu::state::{State, wrap8, wrap16};

verus! {

/// An addressing mode together with the operand bytes that came with the
/// opcode.
#[derive(Clone, Copy, Debug, PartialEq, Eq)]
pub enum AddressMode {
    /// The operand byte is the value.
    Immediate(u8),
    /// An address in page zero, `0x0000` to `0x00ff`.
    ZeroPage(u8),
    /// An address in page zero, offset by `X` without leaving the page.
    ZeroPageX(u8),
    /// An address in page zero, offset by `Y` without leaving the page.
    ZeroPageY(u8),
    /// A signed offset from the program counter.
    Relative(i8),
    /// A full sixteen-bit address.
    Absolute(u16),
    /// A full address offset by `X`.
    AbsoluteX(u16),
    /// A full address offset by `Y`.
    AbsoluteY(u16),
    /// The address of a pointer to the address.
    Indirect(u16),
    /// A pointer in page zero, found at the operand offset by `X`.
    IndexedIndirect(u8),
    /// A pointer in page zero, whose target is offset by `Y`.
    IndirectIndexed(u8),
}

impl State {
    /// What `mode` resolves to. For `Immediate` this is the operand itself
    /// and no address; for every other mode it is the effective address.
    ///
    /// The indexed page-zero modes wrap within page zero, the others modulo
    /// `0x10000`. `Relative` counts from the program counter as it stands,
    /// which during execution is the address after the instruction. The
    /// pointer of `IndexedIndirect` is looked up at the wrapped page-zero
    /// address and read as any other word.
    pub open spec fn operand_address(self, mode: AddressMode) -> u16 {
        match mode {
            AddressMode::Immediate(value) => value as u16,
            AddressMode::ZeroPage(address) => address as u16,
            AddressMode::ZeroPageX(address) => wrap8(address + self.x) as u16,
            AddressMode::ZeroPageY(address) => wrap8(address + self.y) as u16,
            AddressMode::Relative(offset) => wrap16(self.pc + offset),
            AddressMode::Absolute(address) => address,
            AddressMode::AbsoluteX(address) => wrap16(address + self.x),
            AddressMode::AbsoluteY(address) => wrap16(address + self.y),
            AddressMode::Indirect(address) => self.read16(address),
            AddressMode::IndexedIndirect(address) => self.read16(wrap8(address + self.x) as u16),
            AddressMode::IndirectIndexed(address) => wrap16(self.read16(address as u16) + self.y),
        }
    }

    /// The byte that an instruction with `mode` works on: the operand itself
    /// for `Immediate`, else the byte at the effective address.
    pub open spec fn operand_value(self, mode: AddressMode) -> u8 {
        match mode {
            AddressMode::Immediate(value) => value,
            _ => self.read8(self.operand_address(mode)),
        }
    }

    /// The word that an instruction with `mode` works on: the operand itself
    /// for `Immediate`, else the little-endian word at the effective address.
    pub open spec fn operand_word(self, mode: AddressMode) -> u16 {
        match mode {
            AddressMode::Immediate(value) => value as u16,
            _ => self.read16(self.operand_address(mode)),
        }
    }
}

/// The indexed page-zero modes never leave page zero, whatever the operand
/// and the index register hold.
pub proof fn lemma_zero_page_indexed_stays_in_page(s: State, operand: u8)
    ensures
        s.operand_address(AddressMode::ZeroPage(operand)) < 0x100,
        s.operand_address(AddressMode::ZeroPageX(operand)) < 0x100,
        s.operand_address(AddressMode::ZeroPageY(operand)) < 0x100,
        s.operand_address(AddressMode::ZeroPageX(operand)) == (operand + s.x) % 0x100,
        s.operand_address(AddressMode::ZeroPageY(operand)) == (operand + s.y) % 0x100,
{
}

} // verus!
