//! The processor, split into its model, its flag arithmetic and its
//! executable form.

pub mod addressing;
pub mod execution;
pub mod flags;
pub mod halting;
pub mod instructions;
pub mod laws;
pub mod opcode;
pub mod processor;
pub mod semantics;
pub mod state;
