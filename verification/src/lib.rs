//! The instruction-execution core of a MOS 6502-class microprocessor:
//! registers, status flags, a flat 64 KiB memory, the addressing-mode
//! resolver and the fetch-decode-execute loop, each with a contract over a
//! mathematical model of the machine.

pub mod cpu;
