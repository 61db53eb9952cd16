//! Errors reported while loading a program.

use vstd::prelude::*;

verus! {

/// A program can be rejected before execution for two reasons: a source byte
/// outside the four-symbol alphabet, or a program too large for the 256-byte
/// memory. Execution itself never fails.
#[derive(Copy, Clone, Debug, PartialEq, Eq, Structural)]
pub enum LoadError {
    /// A source byte is not one of `[`, `]`, `+`, `>`. Carries the offending byte.
    InvalidInstructionChar(u8),
    /// The program has more than 1024 symbolic instructions, so its packed
    /// form would exceed the 256-byte memory.
    ProgramTooLarge,
}

} // verus!
