//! What each instruction does to the machine, what one turn of the
//! execution loop does, and where a run ends.

use vstd::prelude::*;
use crate::cpu::addressing::AddressMode;
use crate::cpu::flags::{with_carry, with_zero_and_negative};
use crate::cpu::opcode::{spec_decode, Instruction};
use crate::cpu::state::{State, wrap8, wrap16};

verus! {

/// The three registers that an instruction can write.
#[derive(Clone, Copy, Debug, PartialEq, Eq)]
pub enum Register {
    A,
    X,
    Y,
}

/// How one turn of the execution loop ended.
#[derive(Clone, Copy, Debug, PartialEq, Eq)]
pub enum StepOutcome {
    /// The halt opcode was fetched: the loop is over.
    Halted,
    /// An instruction ran. The flag says whether it set the program counter
    /// itself; no instruction of this core does.
    Executed(bool),
    /// The byte is in no entry of the opcode table: nothing ran, and the
    /// loop goes on with the next byte.
    UnknownOpcode(u8),
}

impl State {
    /// This state after `value` was written to `register`: the register
    /// holds it, and Zero and Negative are those of `value`.
    pub open spec fn write_register(self, register: Register, value: u8) -> State {
        let status = with_zero_and_negative(self.status, value);
        match register {
            Register::A => State { a: value, status, ..self },
            Register::X => State { x: value, status, ..self },
            Register::Y => State { y: value, status, ..self },
        }
    }

    /// `LDA`: the operand goes to the accumulator.
    pub open spec fn lda(self, mode: AddressMode) -> State {
        self.write_register(Register::A, self.operand_value(mode))
    }

    /// `LDX`: the operand goes to `X`.
    pub open spec fn ldx(self, mode: AddressMode) -> State {
        self.write_register(Register::X, self.operand_value(mode))
    }

    /// `LDY`: the operand goes to `Y`.
    pub open spec fn ldy(self, mode: AddressMode) -> State {
        self.write_register(Register::Y, self.operand_value(mode))
    }

    /// `INX`: `X` goes up by one, and `0xff` becomes `0x00`.
    pub open spec fn inx(self) -> State {
        self.write_register(Register::X, wrap8(self.x + 1))
    }

    /// `INY`: `Y` goes up by one, and `0xff` becomes `0x00`.
    pub open spec fn iny(self) -> State {
        self.write_register(Register::Y, wrap8(self.y + 1))
    }

    /// `TAX`: `X` becomes what the accumulator holds.
    pub open spec fn tax(self) -> State {
        self.write_register(Register::X, self.a)
    }

    /// `ADC`: the operand is added to the accumulator modulo `0x100`. A sum
    /// above `0xff` sets the carry bit; the carry bit is not added in.
    pub open spec fn adc(self, mode: AddressMode) -> State {
        let sum = self.a + self.operand_value(mode);
        State { status: with_carry(self.status, sum > 0xff), ..self }.write_register(
            Register::A,
            wrap8(sum),
        )
    }

    /// What `instruction` does, given the byte and the word that follow its
    /// opcode. The program counter already stands after the operand.
    pub open spec fn execute(self, instruction: Instruction, byte: u8, word: u16) -> State {
        match instruction {
            Instruction::Brk => self,
            Instruction::Lda(kind) => self.lda(kind.spec_with_operand(byte, word)),
            Instruction::Ldx(kind) => self.ldx(kind.spec_with_operand(byte, word)),
            Instruction::Ldy(kind) => self.ldy(kind.spec_with_operand(byte, word)),
            Instruction::Inx => self.inx(),
            Instruction::Iny => self.iny(),
            Instruction::Tax => self.tax(),
            Instruction::Adc(kind) => self.adc(kind.spec_with_operand(byte, word)),
        }
    }

    /// The program counter points at the halt opcode.
    pub open spec fn at_halt(self) -> bool {
        spec_decode(self.read8(self.pc)) == Some(Instruction::Brk)
    }

    /// One turn of the execution loop: the opcode at the program counter is
    /// fetched and the counter moves past it; a byte without a table entry
    /// ends the turn there, and so does the halt opcode; else the counter
    /// moves past the operand bytes and the instruction runs.
    pub open spec fn step(self) -> State {
        let fetched = self.with_pc(wrap16(self.pc + 1));
        match spec_decode(self.read8(self.pc)) {
            None => fetched,
            Some(instruction) => {
                let byte = fetched.read8(fetched.pc);
                let word = fetched.read16(fetched.pc);
                fetched.with_pc(wrap16(fetched.pc + instruction.spec_operand_len())).execute(
                    instruction,
                    byte,
                    word,
                )
            },
        }
    }

    /// How the turn that `step` describes ends.
    pub open spec fn step_outcome(self) -> StepOutcome {
        match spec_decode(self.read8(self.pc)) {
            None => StepOutcome::UnknownOpcode(self.read8(self.pc)),
            Some(Instruction::Brk) => StepOutcome::Halted,
            Some(_) => StepOutcome::Executed(false),
        }
    }

    /// This state after `n` turns of the loop.
    pub open spec fn steps(self, n: nat) -> State
        decreases n,
    {
        if n == 0 {
            self
        } else {
            self.steps((n - 1) as nat).step()
        }
    }

    /// The first halt opcode is fetched in turn `n`, counted from zero.
    pub open spec fn halts_at(self, n: nat) -> bool {
        &&& self.steps(n).at_halt()
        &&& forall|k: nat| k < n ==> !(#[trigger] self.steps(k)).at_halt()
    }

    /// The loop started here ends: some turn fetches the halt opcode.
    pub open spec fn halts(self) -> bool {
        exists|n: nat| (#[trigger] self.steps(n)).at_halt()
    }

    /// The number of turns before the one that fetches the halt opcode.
    pub open spec fn steps_to_halt(self) -> nat {
        choose|n: nat| self.halts_at(n)
    }

    /// Where the loop started here ends: the state after the turn that
    /// fetched the halt opcode.
    pub open spec fn run(self) -> State
        recommends
            self.halts(),
    {
        self.steps(self.steps_to_halt() + 1)
    }
}

/// A turn leaves the memory and the stack pointer as they were: no
/// instruction of this core stores or uses the stack.
pub proof fn lemma_step_keeps_memory(s: State)
    ensures
        s.step().memory == s.memory,
        s.step().sp == s.sp,
        s.wf() ==> s.step().wf(),
{
}

/// Any number of turns leaves the memory and the stack pointer as they were.
pub proof fn lemma_steps_keep_memory(s: State, n: nat)
    ensures
        s.steps(n).memory == s.memory,
        s.steps(n).sp == s.sp,
        s.wf() ==> s.steps(n).wf(),
    decreases n,
{
    if n > 0 {
        lemma_steps_keep_memory(s, (n - 1) as nat);
        lemma_step_keeps_memory(s.steps((n - 1) as nat));
    }
}

/// Turns add up: `m` turns after `n` turns are `n + m` turns.
pub proof fn lemma_steps_add(s: State, n: nat, m: nat)
    ensures
        s.steps(n).steps(m) == s.steps(n + m),
    decreases m,
{
    if m > 0 {
        lemma_steps_add(s, n, (m - 1) as nat);
    }
}

/// If some turn up to `n` fetches the halt opcode, one of them is the first.
proof fn lemma_first_halt_exists(s: State, n: nat) -> (first: nat)
    requires
        s.steps(n).at_halt(),
    ensures
        first <= n,
        s.halts_at(first),
    decreases n,
{
    if exists|k: nat| k < n && (#[trigger] s.steps(k)).at_halt() {
        let k: nat = choose|k: nat| k < n && (#[trigger] s.steps(k)).at_halt();
        lemma_first_halt_exists(s, k)
    } else {
        n
    }
}

/// A loop that ends has exactly one first halt, and `steps_to_halt` is it.
pub proof fn lemma_halts_at_first(s: State)
    requires
        s.halts(),
    ensures
        s.halts_at(s.steps_to_halt()),
{
    let n: nat = choose|n: nat| (#[trigger] s.steps(n)).at_halt();
    let first: nat = lemma_first_halt_exists(s, n);
    assert(s.halts_at(first));
}

/// The turn of the first halt is unique: whoever finds a first halt at turn
/// `n` knows the whole run.
pub proof fn lemma_run_from_first_halt(s: State, n: nat)
    requires
        s.halts_at(n),
    ensures
        s.halts(),
        s.steps_to_halt() == n,
        s.run() == s.steps(n).step(),
{
    assert(s.steps(n).at_halt());
    lemma_halts_at_first(s);
    let m: nat = s.steps_to_halt();
    if m < n {
        assert(!s.steps(m).at_halt());
    }
    if n < m {
        assert(!s.steps(n).at_halt());
    }
    assert(s.steps(n + 1) == s.steps(n).step());
}

/// A loop that has not halted yet ends exactly when the loop after one more
/// turn ends, and both end in the same state.
pub proof fn lemma_run_unfolds(s: State)
    requires
        !s.at_halt(),
    ensures
        s.halts() <==> s.step().halts(),
        s.halts() ==> s.run() == s.step().run(),
{
    assert(s.steps(0) == s);
    if s.halts() {
        lemma_halts_at_first(s);
        let n: nat = s.steps_to_halt();
        assert(n > 0);
        let m: nat = (n - 1) as nat;
        assert forall|k: nat| k <= m implies s.step().steps(k) == s.steps(k + 1) by {
            lemma_steps_add(s, 1, k);
            assert(s.steps(1) == s.steps(0).step());
        }
        assert(s.step().steps(m) == s.steps(n));
        assert forall|k: nat| k < m implies !(#[trigger] s.step().steps(k)).at_halt() by {
            assert(s.step().steps(k) == s.steps(k + 1));
            assert(!s.steps(k + 1).at_halt());
        }
        assert(s.step().halts_at(m));
        lemma_run_from_first_halt(s.step(), m);
    }
    if s.step().halts() {
        lemma_halts_at_first(s.step());
        let m: nat = s.step().steps_to_halt();
        lemma_steps_add(s, 1, m);
        assert(s.steps(1) == s.steps(0).step());
        assert(s.steps(m + 1).at_halt());
    }
}

} // verus!
