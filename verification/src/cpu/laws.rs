//! What holds of the machine whatever state it is in.

use vstd::prelude::*;
use crate::cpu::addressing::AddressMode;
use crate::cpu::flags::{
    carry_flag,
    lemma_carry_flags,
    lemma_write_flags,
    negative_flag,
    with_carry,
    zero_flag,
};
use crate::cpu::semantics::{lemma_halts_at_first, lemma_run_from_first_halt, Register};
use crate::cpu::state::{State, wrap16, PROGRAM_START, PROGRAM_WINDOW};

verus! {

/// A write to a register sets Zero exactly when the value is zero and
/// Negative exactly when bit 7 of the value is set, and the status byte
/// that results is the same whichever register was written.
pub proof fn lemma_register_write_flags(s: State, register: Register, value: u8)
    ensures
        zero_flag(s.write_register(register, value).status) <==> value == 0,
        negative_flag(s.write_register(register, value).status) <==> value >= 0x80,
        carry_flag(s.write_register(register, value).status) <==> carry_flag(s.status),
        s.write_register(register, value).status == s.write_register(Register::A, value).status,
        s.write_register(register, value).memory == s.memory,
        s.write_register(register, value).pc == s.pc,
        s.write_register(register, value).sp == s.sp,
{
    lemma_write_flags(s.status, value);
}

/// A load puts the operand in its register and sets Zero exactly when the
/// operand is zero and Negative exactly when its bit 7 is set; the three
/// loads leave the same status byte.
pub proof fn lemma_load_flags(s: State, mode: AddressMode)
    ensures
        s.lda(mode).a == s.operand_value(mode),
        s.ldx(mode).x == s.operand_value(mode),
        s.ldy(mode).y == s.operand_value(mode),
        zero_flag(s.lda(mode).status) <==> s.operand_value(mode) == 0,
        negative_flag(s.lda(mode).status) <==> s.operand_value(mode) >= 0x80,
        s.ldx(mode).status == s.lda(mode).status,
        s.ldy(mode).status == s.lda(mode).status,
{
    lemma_write_flags(s.status, s.operand_value(mode));
}

/// An increment adds one modulo `0x100`: from `0xff` it gives zero with
/// Zero set, and from anything else the next value with Zero clear.
pub proof fn lemma_increment_wraps(s: State)
    ensures
        s.x == 0xff ==> s.inx().x == 0 && zero_flag(s.inx().status),
        s.x < 0xff ==> s.inx().x == s.x + 1 && !zero_flag(s.inx().status),
        s.y == 0xff ==> s.iny().y == 0 && zero_flag(s.iny().status),
        s.y < 0xff ==> s.iny().y == s.y + 1 && !zero_flag(s.iny().status),
        s.x == 0xfe ==> s.inx().inx().x == 0 && zero_flag(s.inx().inx().status),
        s.y == 0xfe ==> s.iny().iny().y == 0 && zero_flag(s.iny().iny().status),
{
    lemma_register_write_flags(s, Register::X, s.inx().x);
    lemma_register_write_flags(s, Register::Y, s.iny().y);
    lemma_register_write_flags(s.inx(), Register::X, s.inx().inx().x);
    lemma_register_write_flags(s.iny(), Register::Y, s.iny().iny().y);
}

/// An addition leaves the sum modulo `0x100` in the accumulator, with Zero
/// and Negative of that value. A sum above `0xff` sets the carry bit, any
/// other sum leaves the carry bit as it was; the carry bit is never added
/// in. So `0xff` plus one gives zero with carry and Zero set and Negative
/// clear.
pub proof fn lemma_adc_wraps_and_carries(s: State, mode: AddressMode)
    ensures
        s.adc(mode).a == (s.a + s.operand_value(mode)) % 0x100,
        s.a + s.operand_value(mode) > 0xff ==> carry_flag(s.adc(mode).status),
        s.a + s.operand_value(mode) <= 0xff ==> (carry_flag(s.adc(mode).status) <==> carry_flag(
            s.status,
        )),
        zero_flag(s.adc(mode).status) <==> s.adc(mode).a == 0,
        negative_flag(s.adc(mode).status) <==> s.adc(mode).a >= 0x80,
        s.a == 0xff && s.operand_value(mode) == 1 ==> s.adc(mode).a == 0 && carry_flag(
            s.adc(mode).status,
        ) && zero_flag(s.adc(mode).status) && !negative_flag(s.adc(mode).status),
{
    let sum: int = s.a + s.operand_value(mode);
    lemma_carry_flags(s.status, sum > 0xff);
    let carried = State { status: with_carry(s.status, sum > 0xff), ..s };
    lemma_register_write_flags(carried, Register::A, s.adc(mode).a);
}

/// Whatever the processor held and whatever program fits the window, a
/// reset after the load leaves the program counter at `PROGRAM_START`, and
/// the program stands in memory from there on, but for the two bytes of
/// the reset vector where it reaches them.
pub proof fn lemma_load_then_reset(s: State, program: Seq<u8>)
    requires
        s.wf(),
        program.len() <= PROGRAM_WINDOW,
    ensures
        s.load_program(program).wf(),
        s.load_program(program).reset().pc == PROGRAM_START,
        s.load_program(program).reset().memory == s.load_program(program).memory,
        forall|i: int|
            0 <= i < program.len() && i < 0x7ffc ==> s.load_program(program).read8(
                (PROGRAM_START + i) as u16,
            ) == #[trigger] program[i],
        forall|address: u16|
            address < PROGRAM_START ==> #[trigger] s.load_program(program).read8(address)
                == s.read8(address),
{
}

/// The halt opcode ends the loop in the turn that fetches it, and that
/// turn moves the program counter past the opcode and changes nothing
/// else: no register, not the status byte, no byte of memory.
pub proof fn lemma_halt_changes_counter_only(s: State)
    requires
        s.at_halt(),
    ensures
        s.halts(),
        s.steps_to_halt() == 0,
        s.run() == s.step(),
        s.step() == s.with_pc(wrap16(s.pc + 1)),
{
    assert(s.steps(0) == s);
    assert(s.halts_at(0));
    lemma_run_from_first_halt(s, 0);
}

/// A run ends with the registers as the instructions before the halt left
/// them: the last turn only moves the program counter past the halt
/// opcode.
pub proof fn lemma_run_keeps_registers_at_halt(s: State)
    requires
        s.halts(),
    ensures
        s.steps(s.steps_to_halt()).at_halt(),
        s.run() == s.steps(s.steps_to_halt()).with_pc(
            wrap16(s.steps(s.steps_to_halt()).pc + 1),
        ),
{
    lemma_halts_at_first(s);
    let n: nat = s.steps_to_halt();
    assert(s.steps(n + 1) == s.steps(n).step());
}

} // verus!
