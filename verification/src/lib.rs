//! A cycle-accurate execution core for the MOS 6502 microprocessor.
//!
//! The dispatcher advances the machine one bus cycle per call: cycle 0 fetches
//! and decodes the opcode, later cycles run the addressing-mode template of
//! the decoded instruction. Contracts pin down, for every cycle, the exact
//! architectural state left behind and the one bus transaction performed —
//! dummy reads, page-cross penalties and zero-page wrap-around included.

pub mod cpu;
pub mod dispatch;
pub mod instructions;
pub mod laws;
pub mod memory;
pub mod templates;
