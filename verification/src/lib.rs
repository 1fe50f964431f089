//! A static disassembler library for 6502-family machine code as used on the
//! NES console.
//!
//! Given one or more binary bank images mapped into the 16-bit logical address
//! space, optional per-byte annotations from an external code/data logger, and
//! a memory-permission map, the library classifies every address as code or
//! data through a sequence of monotone analysis passes and renders one
//! designated bank into a sequence of assembly statements.

pub mod address;
pub mod analysis;
pub mod assembly;
pub mod bank;
pub mod cdl;
pub mod config;
pub mod input;
pub mod memory;
pub mod op;
pub mod permission;
