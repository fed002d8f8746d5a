//! The fetch-decode-execute loop.

use vstd::prelude::*;
use crate::cpu::opcode::{decode, Instruction};
use crate::cpu::processor::{LoadError, Processor};
use crate::cpu::semantics::{lemma_halts_at_first, StepOutcome};
use crate::cpu::state::PROGRAM_WINDOW;

verus! {

impl Processor {
    /// One turn of the execution loop: fetches the opcode at the program
    /// counter and moves the counter past it, looks the opcode up, moves
    /// the counter past the operand bytes and runs the handler. A byte that
    /// is no opcode is passed over and reported; the halt opcode is
    /// reported and changes nothing but the counter.
    pub fn step(&mut self) -> (outcome: StepOutcome)
        ensures
            final(self)@ == old(self)@.step(),
            outcome == old(self)@.step_outcome(),
    {
        let opcode: u8 = self.mem_read_u8(self.pc);
        self.pc = self.pc.wrapping_add(1);
        match decode(opcode) {
            None => StepOutcome::UnknownOpcode(opcode),
            Some(instruction) => {
                let next_byte: u8 = self.mem_read_u8(self.pc);
                let next_short: u16 = self.mem_read_u16(self.pc);
                self.pc = self.pc.wrapping_add(instruction.operand_len());
                match instruction {
                    Instruction::Brk => StepOutcome::Halted,
                    Instruction::Lda(kind) => StepOutcome::Executed(
                        self.lda(kind.with_operand(next_byte, next_short)),
                    ),
                    Instruction::Ldx(kind) => StepOutcome::Executed(
                        self.ldx(kind.with_operand(next_byte, next_short)),
                    ),
                    Instruction::Ldy(kind) => StepOutcome::Executed(
                        self.ldy(kind.with_operand(next_byte, next_short)),
                    ),
                    Instruction::Inx => StepOutcome::Executed(self.inx()),
                    Instruction::Iny => StepOutcome::Executed(self.iny()),
                    Instruction::Tax => StepOutcome::Executed(self.tax()),
                    Instruction::Adc(kind) => StepOutcome::Executed(
                        self.adc(kind.with_operand(next_byte, next_short)),
                    ),
                }
            },
        }
    }

    /// Runs the execution loop from the program counter until the halt
    /// opcode is fetched.
    ///
    /// Nothing but the halt opcode ends the loop, so the machine has to be
    /// in a state from which it is reached: `will_halt` tells.
    pub fn run_program(&mut self)
        requires
            old(self)@.halts(),
        ensures
            final(self)@ == old(self)@.run(),
    {
        let ghost start = self@;
        let ghost total: nat = start.steps_to_halt();
        let ghost mut done: nat = 0;
        proof {
            lemma_halts_at_first(start);
        }
        loop
            invariant_except_break
                self@ == start.steps(done),
                done <= total,
                start.halts_at(total),
            ensures
                self@ == start.steps(total + 1),
            decreases total - done,
        {
            let outcome = self.step();
            if let StepOutcome::Halted = outcome {
                proof {
                    if done < total {
                        assert(!start.steps(done).at_halt());
                    }
                    assert(start.steps(total + 1) == start.steps(total).step());
                }
                break ;
            }
            proof {
                assert(start.steps(done + 1) == start.steps(done).step());
                done = done + 1;
            }
        }
    }

    /// Loads `program`, resets the processor and runs the program to its
    /// halt. A program that is too long is refused and nothing changes.
    pub fn start_exec(&mut self, program: &[u8]) -> (result: Result<(), LoadError>)
        requires
            program@.len() <= PROGRAM_WINDOW ==> old(self)@.load_program(program@).reset().halts(),
        ensures
            program@.len() <= PROGRAM_WINDOW ==> result is Ok && final(self)@ == old(
                self,
            )@.load_program(program@).reset().run(),
            program@.len() > PROGRAM_WINDOW ==> result == Err::<(), LoadError>(
                LoadError::ProgramTooLarge,
            ) && final(self)@ == old(self)@,
    {
        match self.load_program(program) {
            Err(error) => Err(error),
            Ok(()) => {
                self.reset();
                self.run_program();
                Ok(())
            },
        }
    }

    /// Loads, resets and runs `instr_stream`, as `start_exec` does.
    pub fn interpret(&mut self, instr_stream: Vec<u8>) -> (result: Result<(), LoadError>)
        requires
            instr_stream@.len() <= PROGRAM_WINDOW ==> old(self)@.load_program(
                instr_stream@,
            ).reset().halts(),
        ensures
            instr_stream@.len() <= PROGRAM_WINDOW ==> result is Ok && final(self)@ == old(
                self,
            )@.load_program(instr_stream@).reset().run(),
            instr_stream@.len() > PROGRAM_WINDOW ==> result == Err::<(), LoadError>(
                LoadError::ProgramTooLarge,
            ) && final(self)@ == old(self)@,
    {
        self.start_exec(instr_stream.as_slice())
    }
}

} // verus!
