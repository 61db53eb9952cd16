//! Turning program text into the 256-byte packed memory image.
//!
//! The source is a sequence of the bytes `[`, `]`, `+` and `>`, one symbolic
//! instruction each (any trailing newline is stripped by the caller before
//! loading). The instructions are split into consecutive groups of at most
//! four, each group packed into one byte, and the image is zero-padded to
//! exactly 256 bytes. A program of more than 1024 symbolic instructions would
//! not fit and is rejected before the engine is ever invoked.

use vstd::prelude::*;

use crate::error::LoadError;
use crate::instruction::{
    encode_spec, instruction_of_byte, is_instruction_byte, Instruction,
};

verus! {

/// The number of memory cells, each holding four packed instructions.
pub const MEMORY_SIZE: usize = 256;

/// The largest symbolic instruction count that fits in memory.
pub const MAX_INSTRUCTIONS: usize = 1024;

/// Group `k` of a program: the instructions at positions `4k..4k+4`, fewer
/// where the program ends inside the group, none where it ends before it.
pub open spec fn group_spec(s: Seq<Instruction>, k: int) -> Seq<Instruction> {
    if 4 * k + 4 <= s.len() {
        s.subrange(4 * k, 4 * k + 4)
    } else if 4 * k < s.len() {
        s.subrange(4 * k, s.len() as int)
    } else {
        Seq::empty()
    }
}

/// The 256-byte memory image of a program: byte `k` encodes group `k`.
/// Beyond the program every group is empty and encodes to 0, so the image is
/// the packed program at the front, zero-padded to the full memory.
pub open spec fn packed_spec(s: Seq<Instruction>) -> Seq<u8> {
    Seq::new(MEMORY_SIZE as nat, |k: int| encode_spec(group_spec(s, k)))
}

/// The instruction sequence denoted by program text whose bytes are all valid.
pub open spec fn parse_spec(src: Seq<u8>) -> Seq<Instruction> {
    src.map(|i: int, b: u8| instruction_of_byte(b))
}

/// Whether every byte of the program text is one of the four symbols.
pub open spec fn all_valid(src: Seq<u8>) -> bool {
    forall|i: int| 0 <= i < src.len() ==> is_instruction_byte(src[i])
}

/// Packs an instruction sequence into the 256-byte memory image: consecutive
/// groups of at most four instructions, one byte each, zero-padded to the
/// full memory.
pub fn pack(instructions: &Vec<Instruction>) -> (mem: Vec<u8>)
    requires
        instructions@.len() <= MAX_INSTRUCTIONS,
    ensures
        mem@ == packed_spec(instructions@),
        mem@.len() == MEMORY_SIZE,
{
    let n = instructions.len();
    let mut mem: Vec<u8> = Vec::new();
    let mut k: usize = 0;
    while k < MEMORY_SIZE
        invariant
            k <= MEMORY_SIZE,
            n == instructions@.len() <= MAX_INSTRUCTIONS,
            mem@.len() == k,
            forall|kk: int| 0 <= kk < k ==> mem@[kk] == encode_spec(group_spec(instructions@, kk)),
        decreases MEMORY_SIZE - k,
    {
        let base = 4 * k;
        let mut group: Vec<Instruction> = Vec::new();
        let mut j: usize = 0;
        while j < 4 && base + j < n
            invariant
                j <= 4,
                base == 4 * k,
                base + j <= n || j == 0,
                n == instructions@.len() <= MAX_INSTRUCTIONS,
                k < MEMORY_SIZE,
                group@.len() == j,
                forall|jj: int| 0 <= jj < j ==> group@[jj] == instructions@[base + jj],
            decreases 4 - j,
        {
            group.push(instructions[base + j]);
            j = j + 1;
        }
        proof {
            assert(group@ =~= group_spec(instructions@, k as int));
        }
        mem.push(Instruction::to_byte(&group));
        k = k + 1;
    }
    proof {
        assert(mem@ =~= packed_spec(instructions@));
    }
    mem
}

/// Loads program text: parses each byte as a symbolic instruction, rejects a
/// program of more than 1024 instructions, and packs the rest into the
/// 256-byte memory image handed to the engine.
///
/// Succeeds exactly when every byte is one of the four symbols and there are
/// at most 1024 of them. A byte outside the alphabet fails the load with
/// `InvalidInstructionChar` carrying the first such byte; an oversized
/// all-valid program fails with `ProgramTooLarge`.
pub fn load_program(source: &Vec<u8>) -> (r: Result<Vec<u8>, LoadError>)
    ensures
        r is Ok <==> all_valid(source@) && source@.len() <= MAX_INSTRUCTIONS,
        (match r {
            Ok(mem) => mem@ == packed_spec(parse_spec(source@)) && mem@.len() == MEMORY_SIZE,
            Err(e) => match e {
                LoadError::ProgramTooLarge => all_valid(source@) && source@.len()
                    > MAX_INSTRUCTIONS,
                LoadError::InvalidInstructionChar(b) => exists|i: int|
                    0 <= i < source@.len() && source@[i] == b && !is_instruction_byte(b) && (forall|
                        j: int| 0 <= j < i ==> is_instruction_byte(source@[j])),
            },
        }),
{
    let instructions = match Instruction::from_chars(source) {
        Ok(v) => v,
        Err(e) => {
            return Err(e);
        },
    };
    if instructions.len() > MAX_INSTRUCTIONS {
        return Err(LoadError::ProgramTooLarge);
    }
    Ok(pack(&instructions))
}

} // verus!
