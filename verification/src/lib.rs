//! A tiny virtual machine for a four-instruction esoteric language.
//!
//! A program is a sequence of the symbols `[`, `]`, `+` and `>`. Each
//! instruction has a two-bit code, and four instructions are packed into one
//! byte of the machine's 256-byte memory, which holds program and data in a
//! single shared address space.

pub mod engine;
pub mod error;
pub mod instruction;
pub mod loader;
