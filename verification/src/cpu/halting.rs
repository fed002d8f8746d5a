//! Whether the execution loop ends. No instruction of this core stores to
//! memory or sets the program counter, so the path of the counter is fixed
//! by the memory and the counter alone, and following it until it reaches
//! the halt opcode or comes back to an address it has been at decides the
//! question.

use vstd::prelude::*;
use vstd::set_lib::{lemma_int_range, lemma_len_subset, set_int_range};
use crate::cpu::opcode::{decode, spec_decode, Instruction};
use crate::cpu::processor::Processor;
use crate::cpu::semantics::lemma_steps_keep_memory;
use crate::cpu::state::{State, wrap16};

verus! {

/// The program counter after the turn that starts at `pc`.
pub open spec fn next_pc(memory: Seq<u8>, pc: u16) -> u16 {
    match spec_decode(memory[pc as int]) {
        None => wrap16(pc + 1),
        Some(instruction) => wrap16(wrap16(pc + 1) + instruction.spec_operand_len()),
    }
}

/// The program counter after `n` turns from `pc`.
pub open spec fn pc_after(memory: Seq<u8>, pc: u16, n: nat) -> u16
    decreases n,
{
    if n == 0 {
        pc
    } else {
        next_pc(memory, pc_after(memory, pc, (n - 1) as nat))
    }
}

/// The byte at `pc` is the halt opcode.
pub open spec fn halt_at(memory: Seq<u8>, pc: u16) -> bool {
    spec_decode(memory[pc as int]) == Some(Instruction::Brk)
}

/// The counter after `n` turns of the machine is the counter that the
/// memory and the starting counter alone give.
pub proof fn lemma_steps_pc(s: State, n: nat)
    ensures
        s.steps(n).pc == pc_after(s.memory, s.pc, n),
        s.steps(n).at_halt() <==> halt_at(s.memory, pc_after(s.memory, s.pc, n)),
    decreases n,
{
    lemma_steps_keep_memory(s, n);
    if n > 0 {
        lemma_steps_pc(s, (n - 1) as nat);
        lemma_steps_keep_memory(s, (n - 1) as nat);
    }
}

/// Turns of the counter add up.
proof fn lemma_pc_after_add(memory: Seq<u8>, pc: u16, n: nat, m: nat)
    ensures
        pc_after(memory, pc_after(memory, pc, n), m) == pc_after(memory, pc, n + m),
    decreases m,
{
    if m > 0 {
        lemma_pc_after_add(memory, pc, n, (m - 1) as nat);
    }
}

/// A counter that comes back to an address before it has met the halt
/// opcode never meets it.
proof fn lemma_cycle_never_halts(memory: Seq<u8>, pc: u16, earlier: nat, later: nat, n: nat)
    requires
        earlier < later,
        pc_after(memory, pc, earlier) == pc_after(memory, pc, later),
        forall|k: nat| k < later ==> !halt_at(memory, #[trigger] pc_after(memory, pc, k)),
    ensures
        !halt_at(memory, pc_after(memory, pc, n)),
    decreases n,
{
    if n >= later {
        let rest: nat = (n - later) as nat;
        lemma_pc_after_add(memory, pc, later, rest);
        lemma_pc_after_add(memory, pc, earlier, rest);
        lemma_cycle_never_halts(memory, pc, earlier, later, earlier + rest);
    }
}

impl Processor {
    /// Whether the execution loop, started in this state, reaches the halt
    /// opcode.
    pub fn will_halt(&self) -> (halts: bool)
        ensures
            halts == self@.halts(),
    {
        let mut visited: [bool; 65536] = [false; 65536];
        let mut pc: u16 = self.pc;
        let ghost mut turns: nat = 0;
        let ghost mut seen: Set<int> = Set::empty();
        proof {
            lemma_int_range(0, 0x10000);
        }
        loop
            invariant
                pc == pc_after(self.memory@, self.pc, turns),
                forall|k: nat|
                    k < turns ==> !halt_at(self.memory@, #[trigger] pc_after(self.memory@, self.pc, k)),
                forall|address: int|
                    0 <= address < 0x10000 ==> (visited@[address] <==> seen.contains(address)),
                forall|address: int| #[trigger]
                    seen.contains(address) ==> 0 <= address < 0x10000 && exists|k: nat|
                        k < turns && pc_after(self.memory@, self.pc, k) == address,
                seen.finite(),
                seen.len() == turns,
                turns <= 0x10000,
                set_int_range(0, 0x10000).finite(),
                set_int_range(0, 0x10000).len() == 0x10000,
            decreases 0x10000 - turns,
        {
            let opcode: u8 = self.memory[pc as usize];
            let operand_len: u16 = match decode(opcode) {
                Some(Instruction::Brk) => {
                    proof {
                        lemma_steps_pc(self@, turns);
                    }
                    return true;
                },
                Some(instruction) => instruction.operand_len(),
                None => 0,
            };
            if visited[pc as usize] {
                proof {
                    assert(visited@[pc as int]);
                    assert(seen.contains(pc as int));
                    let earlier: nat = choose|k: nat|
                        k < turns && pc_after(self.memory@, self.pc, k) == pc as int;
                    assert forall|n: nat| !(#[trigger] self@.steps(n)).at_halt() by {
                        lemma_cycle_never_halts(self.memory@, self.pc, earlier, turns, n);
                        lemma_steps_pc(self@, n);
                    }
                }
                return false;
            }
            visited[pc as usize] = true;
            proof {
                let grown: Set<int> = seen.insert(pc as int);
                assert(grown.subset_of(set_int_range(0, 0x10000)));
                lemma_len_subset(grown, set_int_range(0, 0x10000));
                assert forall|address: int| #[trigger] grown.contains(address) implies 0 <= address
                    < 0x10000 && exists|k: nat|
                    k < turns + 1 && pc_after(self.memory@, self.pc, k) == address by {
                    if address == pc as int {
                        assert(pc_after(self.memory@, self.pc, turns) == address);
                    } else {
                        assert(seen.contains(address));
                        let k: nat = choose|k: nat|
                            k < turns && pc_after(self.memory@, self.pc, k) == address;
                        assert(k < turns + 1 && pc_after(self.memory@, self.pc, k) == address);
                    }
                }
                seen = grown;
                turns = turns + 1;
            }
            pc = pc.wrapping_add(1).wrapping_add(operand_len);
        }
    }

    /// Runs the execution loop to its halt if it has one, and says whether
    /// it did. A processor whose loop would never end is left as it was.
    pub fn run_if_halting(&mut self) -> (ran: bool)
        ensures
            ran == old(self)@.halts(),
            ran ==> final(self)@ == old(self)@.run(),
            !ran ==> final(self)@ == old(self)@,
    {
        if self.will_halt() {
            self.run_program();
            true
        } else {
            false
        }
    }
}

} // verus!
