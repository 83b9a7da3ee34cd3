//! Execution core of a 6502-class 8-bit microprocessor: a register file,
//! a status-flag register, and a fetch-decode-execute loop over a
//! byte-addressable instruction stream.

pub mod cpu;
