//! The processor itself: the registers and the memory as the machine holds
//! them, the memory primitives, the addressing-mode resolver, and how a
//! program is loaded and the processor reset.

use vstd::prelude::*;
use crate::cpu::addressing::AddressMode;
use crate::cpu::flags::{with_zero_and_negative, NEGATIVE_MASK, ZERO_MASK};
use crate::cpu::state::{
    State,
    MEMORY_SIZE,
    PROGRAM_START,
    PROGRAM_WINDOW,
    RESET_VECTOR,
    STACK_AFTER_RESET,
    STACK_POWER_ON,
};

verus! {

/// The registers, the status byte and the whole address space of one
/// machine. Whoever owns the value owns the machine.
pub struct Processor {
    pub x: u8,
    pub y: u8,
    pub a: u8,
    pub status: u8,
    pub sp: u8,
    pub pc: u16,
    pub memory: [u8; 65536],
}

/// Why a program was not loaded.
#[derive(Clone, Copy, Debug, PartialEq, Eq)]
pub enum LoadError {
    /// The program is longer than the window from `PROGRAM_START` to the
    /// top of memory.
    ProgramTooLarge,
}

impl View for Processor {
    type V = State;

    open spec fn view(&self) -> State {
        State {
            a: self.a,
            x: self.x,
            y: self.y,
            status: self.status,
            sp: self.sp,
            pc: self.pc,
            memory: self.memory@,
        }
    }
}

/// The memory of a state in which `program` was copied to `PROGRAM_START`.
pub open spec fn memory_with_program(memory: Seq<u8>, program: Seq<u8>) -> Seq<u8> {
    Seq::new(
        memory.len(),
        |i: int|
            if PROGRAM_START <= i < PROGRAM_START + program.len() {
                program[i - PROGRAM_START]
            } else {
                memory[i]
            },
    )
}

impl State {
    /// A machine that was just made: everything zero but the stack pointer.
    pub open spec fn power_on() -> State {
        State {
            a: 0,
            x: 0,
            y: 0,
            status: 0,
            sp: STACK_POWER_ON,
            pc: 0,
            memory: Seq::new(MEMORY_SIZE as nat, |i: int| 0u8),
        }
    }

    /// This state after a reset: the registers and the status byte are
    /// zero, the stack pointer has its reset value and the program counter
    /// is the word in the reset vector. The memory is untouched.
    pub open spec fn reset(self) -> State {
        State {
            a: 0,
            x: 0,
            y: 0,
            status: 0,
            sp: STACK_AFTER_RESET,
            pc: self.read16(RESET_VECTOR),
            memory: self.memory,
        }
    }

    /// This state after `program` was loaded: its bytes stand from
    /// `PROGRAM_START` on, and then the reset vector was pointed at
    /// `PROGRAM_START`.
    pub open spec fn load_program(self, program: Seq<u8>) -> State
        recommends
            program.len() <= PROGRAM_WINDOW,
    {
        State { memory: memory_with_program(self.memory, program), ..self }.write16(
            RESET_VECTOR,
            PROGRAM_START,
        )
    }
}

/// The view of a processor has a byte at every address.
pub proof fn lemma_view_wf(processor: Processor)
    ensures
        processor@.wf(),
{
}

impl Processor {
    /// A processor with every register and every byte of memory zero, and
    /// the stack pointer at its power-on value.
    pub fn new() -> (processor: Self)
        ensures
            processor@ == State::power_on(),
    {
        let processor = Self {
            x: 0,
            y: 0,
            a: 0,
            status: 0,
            sp: STACK_POWER_ON,
            pc: 0,
            memory: [0u8; 65536],
        };
        assert(processor.memory@ =~= State::power_on().memory);
        processor
    }

    /// Zeroes the registers and the status byte and loads the program
    /// counter from the reset vector.
    pub fn reset(&mut self)
        ensures
            final(self)@ == old(self)@.reset(),
    {
        self.x = 0;
        self.y = 0;
        self.a = 0;
        self.status = 0;
        self.sp = STACK_AFTER_RESET;
        self.pc = self.mem_read_u16(RESET_VECTOR);
    }

    /// The byte at `address`.
    pub fn mem_read_u8(&self, address: u16) -> (value: u8)
        ensures
            value == self@.read8(address),
    {
        self.memory[address as usize]
    }

    /// The little-endian word at `address`. The high byte of a word at
    /// `0xffff` is the byte at `0x0000`.
    pub fn mem_read_u16(&self, address: u16) -> (value: u16)
        ensures
            value == self@.read16(address),
    {
        let low: u8 = self.memory[address as usize];
        let high: u8 = self.memory[address.wrapping_add(1) as usize];
        (high as u16) * 0x100 + (low as u16)
    }

    /// Stores `value` at `address`.
    pub fn mem_write_u8(&mut self, address: u16, value: u8)
        ensures
            final(self)@ == old(self)@.write8(address, value),
    {
        self.memory[address as usize] = value;
    }

    /// Stores `value` at `address`, low byte first. The high byte of a word
    /// at `0xffff` goes to `0x0000`.
    pub fn mem_write_u16(&mut self, address: u16, value: u16)
        ensures
            final(self)@ == old(self)@.write16(address, value),
    {
        let low: u8 = (value % 0x100) as u8;
        let high: u8 = (value / 0x100) as u8;
        self.memory[address as usize] = low;
        self.memory[address.wrapping_add(1) as usize] = high;
    }

    /// Resolves `mode` against the registers and the memory as they stand:
    /// the operand itself for `Immediate`, else the effective address.
    pub fn operand_address(&self, mode: AddressMode) -> (address: u16)
        ensures
            address == self@.operand_address(mode),
    {
        match mode {
            AddressMode::Immediate(value) => value as u16,
            AddressMode::ZeroPage(address) => address as u16,
            AddressMode::ZeroPageX(address) => address.wrapping_add(self.x) as u16,
            AddressMode::ZeroPageY(address) => address.wrapping_add(self.y) as u16,
            AddressMode::Relative(offset) => self.pc.wrapping_add_signed(offset as i16),
            AddressMode::Absolute(address) => address,
            AddressMode::AbsoluteX(address) => address.wrapping_add(self.x as u16),
            AddressMode::AbsoluteY(address) => address.wrapping_add(self.y as u16),
            AddressMode::Indirect(address) => self.mem_read_u16(address),
            AddressMode::IndexedIndirect(address) => self.mem_read_u16(
                address.wrapping_add(self.x) as u16,
            ),
            AddressMode::IndirectIndexed(address) => self.mem_read_u16(address as u16).wrapping_add(
                self.y as u16,
            ),
        }
    }

    /// The byte that `mode` designates: the operand itself for `Immediate`,
    /// else the byte at the effective address.
    pub fn eval_address_mode_u8(&self, mode: AddressMode) -> (value: u8)
        ensures
            value == self@.operand_value(mode),
    {
        if let AddressMode::Immediate(constant) = mode {
            constant
        } else {
            self.mem_read_u8(self.operand_address(mode))
        }
    }

    /// The word that `mode` designates: the operand itself for `Immediate`,
    /// else the little-endian word at the effective address.
    pub fn eval_address_mode_u16(&self, mode: AddressMode) -> (value: u16)
        ensures
            value == self@.operand_word(mode),
    {
        if let AddressMode::Immediate(constant) = mode {
            constant as u16
        } else {
            self.mem_read_u16(self.operand_address(mode))
        }
    }

    /// Copies `program` into memory from `PROGRAM_START` on and points the
    /// reset vector at `PROGRAM_START`. The vector is written last, so it
    /// holds `PROGRAM_START` even under a program that reaches it.
    ///
    /// A program longer than `PROGRAM_WINDOW` bytes does not fit below the
    /// top of memory: it is refused, and the processor is left as it was.
    pub fn load_program(&mut self, program: &[u8]) -> (result: Result<(), LoadError>)
        ensures
            program@.len() <= PROGRAM_WINDOW ==> result is Ok && final(self)@ == old(
                self,
            )@.load_program(program@),
            program@.len() > PROGRAM_WINDOW ==> result == Err::<(), LoadError>(
                LoadError::ProgramTooLarge,
            ) && final(self)@ == old(self)@,
    {
        if program.len() > PROGRAM_WINDOW {
            return Err(LoadError::ProgramTooLarge);
        }
        let ghost before = self@;
        let mut copied: usize = 0;
        while copied < program.len()
            invariant
                copied <= program.len() <= PROGRAM_WINDOW,
                self@ =~= (State {
                    memory: memory_with_program(before.memory, program@.take(copied as int)),
                    ..before
                }),
            decreases program.len() - copied,
        {
            self.memory[PROGRAM_START as usize + copied] = program[copied];
            copied = copied + 1;
            assert(self.memory@ =~= memory_with_program(
                before.memory,
                program@.take(copied as int),
            ));
        }
        assert(program@.take(copied as int) =~= program@);
        self.mem_write_u16(RESET_VECTOR, PROGRAM_START);
        Ok(())
    }

    /// Recomputes Zero and Negative from `value` and keeps every other bit
    /// of the status byte.
    pub fn set_zero_and_neg(&mut self, value: u8)
        ensures
            final(self)@ == (State {
                status: with_zero_and_negative(old(self).status, value),
                ..old(self)@
            }),
    {
        let before: u8 = self.status;
        if value == 0 {
            self.status = self.status | ZERO_MASK;
        } else {
            self.status = self.status & !ZERO_MASK;
        }
        if value & NEGATIVE_MASK != 0 {
            self.status = self.status | NEGATIVE_MASK;
        } else {
            self.status = self.status & !NEGATIVE_MASK;
        }
        let after: u8 = self.status;
        assert(after == with_zero_and_negative(before, value)) by (bit_vector)
            requires
                after == (if value & 0x80 != 0 {
                    (if value == 0 {
                        before | 2
                    } else {
                        before & !2u8
                    }) | 0x80
                } else {
                    (if value == 0 {
                        before | 2
                    } else {
                        before & !2u8
                    }) & !0x80u8
                }),
        ;
    }
}

} // verus!

