//! The mathematical model of the machine: the registers and the 64 KiB of
//! memory as plain values, with the memory primitives over them.

use vstd::prelude::*;

verus! {

/// The number of bytes in the address space.
pub const MEMORY_SIZE: usize = 0x10000;

/// Where a program is loaded, and what the reset vector is set to.
pub const PROGRAM_START: u16 = 0x8000;

/// The low byte of the two-byte slot that `reset` loads the program counter
/// from.
pub const RESET_VECTOR: u16 = 0xfffc;

/// The longest program that fits between `PROGRAM_START` and the top of
/// memory.
pub const PROGRAM_WINDOW: usize = 0x8000;

/// The stack pointer of a processor that was just made.
pub const STACK_POWER_ON: u8 = 0xff;

/// The stack pointer after a reset.
pub const STACK_AFTER_RESET: u8 = 0x00;

/// `n` reduced to eight bits.
pub open spec fn wrap8(n: int) -> u8 {
    (n % 0x100) as u8
}

/// `n` reduced to sixteen bits.
pub open spec fn wrap16(n: int) -> u16 {
    (n % 0x10000) as u16
}

/// The state of the machine: what a `Processor` is a view of.
#[verifier::ext_equal]
pub struct State {
    pub a: u8,
    pub x: u8,
    pub y: u8,
    pub status: u8,
    pub sp: u8,
    pub pc: u16,
    pub memory: Seq<u8>,
}

impl State {
    /// Every address has a byte.
    pub open spec fn wf(self) -> bool {
        self.memory.len() == MEMORY_SIZE
    }

    /// The byte at `address`.
    pub open spec fn read8(self, address: u16) -> u8 {
        self.memory[address as int]
    }

    /// The little-endian word at `address`: the low byte there, the high
    /// byte at the next address, which after `0xffff` is `0x0000`.
    pub open spec fn read16(self, address: u16) -> u16 {
        (self.read8(address) + 0x100 * self.read8(wrap16(address + 1))) as u16
    }

    /// This state with `value` at `address`.
    pub open spec fn write8(self, address: u16, value: u8) -> State {
        State { memory: self.memory.update(address as int, value), ..self }
    }

    /// This state with `value` stored little-endian at `address` and the
    /// address after it, which after `0xffff` is `0x0000`.
    pub open spec fn write16(self, address: u16, value: u16) -> State {
        self.write8(address, wrap8(value as int)).write8(
            wrap16(address + 1),
            (value / 0x100) as u8,
        )
    }

    /// This state with the program counter at `pc`.
    pub open spec fn with_pc(self, pc: u16) -> State {
        State { pc, ..self }
    }
}

/// A word that was written is the word that is read back, at every address.
pub proof fn lemma_write16_read16(s: State, address: u16, value: u16)
    requires
        s.wf(),
    ensures
        s.write16(address, value).wf(),
        s.write16(address, value).read16(address) == value,
{
}

/// A byte that was written is the byte that is read back, and every other
/// address keeps its byte.
pub proof fn lemma_write8_read8(s: State, address: u16, value: u8, other: u16)
    requires
        s.wf(),
    ensures
        s.write8(address, value).wf(),
        s.write8(address, value).read8(address) == value,
        other != address ==> s.write8(address, value).read8(other) == s.read8(other),
{
}

} // verus!
