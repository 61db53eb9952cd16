//! The four symbolic instructions and their bit-packed encoding.
//!
//! Each instruction has a canonical two-bit code, and four instructions are
//! packed most-significant-pair-first into one memory byte: bits 7-6 hold
//! instruction 0, bits 5-4 instruction 1, bits 3-2 instruction 2 and bits 1-0
//! instruction 3. A group of fewer than four instructions is padded with
//! `LoopOpen` (code 00), which is also what an all-zero memory byte decodes to.

use vstd::prelude::*;

use crate::error::LoadError;

verus! {

/// One symbolic instruction of the language.
#[derive(Copy, Clone, Debug, PartialEq, Eq, Structural)]
pub enum Instruction {
    /// `[` — record the position right after this instruction in the return pointer.
    LoopOpen,
    /// `]` — jump back to the recorded return position if the cell at the data
    /// pointer is nonzero; otherwise fall through.
    LoopClose,
    /// `+` — increment the cell at the data pointer, wrapping 255 to 0.
    Increment,
    /// `>` — advance the data pointer by one cell.
    ShiftRight,
}

/// The canonical two-bit code of an instruction.
pub open spec fn code_of(i: Instruction) -> u8 {
    match i {
        Instruction::LoopOpen => 0,
        Instruction::LoopClose => 1,
        Instruction::Increment => 2,
        Instruction::ShiftRight => 3,
    }
}

/// The instruction with the given two-bit code. Every value below 4 is a
/// valid code, so decoding cannot fail.
pub open spec fn instruction_of_code(c: u8) -> Instruction {
    if c == 0 {
        Instruction::LoopOpen
    } else if c == 1 {
        Instruction::LoopClose
    } else if c == 2 {
        Instruction::Increment
    } else {
        Instruction::ShiftRight
    }
}

/// The canonical display character of an instruction.
pub open spec fn char_of(i: Instruction) -> char {
    match i {
        Instruction::LoopOpen => '[',
        Instruction::LoopClose => ']',
        Instruction::Increment => '+',
        Instruction::ShiftRight => '>',
    }
}

/// Whether a source byte is one of the four instruction characters.
pub open spec fn is_instruction_byte(b: u8) -> bool {
    b == 0x5b || b == 0x5d || b == 0x2b || b == 0x3e
}

/// The instruction denoted by a valid source byte (`[`, `]`, `+` or `>`).
pub open spec fn instruction_of_byte(b: u8) -> Instruction {
    if b == 0x5b {
        Instruction::LoopOpen
    } else if b == 0x5d {
        Instruction::LoopClose
    } else if b == 0x2b {
        Instruction::Increment
    } else {
        Instruction::ShiftRight
    }
}

/// The four instructions packed in a byte, most-significant pair first.
pub open spec fn decode_spec(b: u8) -> Seq<Instruction> {
    seq![
        instruction_of_code((b >> 6) & 3),
        instruction_of_code((b >> 4) & 3),
        instruction_of_code((b >> 2) & 3),
        instruction_of_code(b & 3),
    ]
}

/// The code packed into slot `k` of a group: the code of the instruction at
/// `k` where the group has one, and the padding code 0 (`LoopOpen`) where it
/// does not.
pub open spec fn pair_of(s: Seq<Instruction>, k: int) -> u8 {
    if 0 <= k < s.len() {
        code_of(s[k])
    } else {
        0
    }
}

/// The byte encoding a group of at most four instructions, missing slots
/// padded with code 0.
pub open spec fn encode_spec(s: Seq<Instruction>) -> u8 {
    (pair_of(s, 0) << 6) | (pair_of(s, 1) << 4) | (pair_of(s, 2) << 2) | pair_of(s, 3)
}

/// A group of at most four instructions extended to exactly four with
/// `LoopOpen` padding: what decoding its encoded byte yields.
pub open spec fn padded_spec(s: Seq<Instruction>) -> Seq<Instruction> {
    Seq::new(4, |i: int| if i < s.len() { s[i] } else { Instruction::LoopOpen })
}

impl Instruction {
    /// The instruction's canonical display character.
    pub fn to_char(self) -> (c: char)
        ensures
            c == char_of(self),
    {
        match self {
            Instruction::LoopOpen => '[',
            Instruction::LoopClose => ']',
            Instruction::Increment => '+',
            Instruction::ShiftRight => '>',
        }
    }

    /// The instruction's canonical two-bit code.
    pub fn code(self) -> (c: u8)
        ensures
            c == code_of(self),
            c < 4,
    {
        match self {
            Instruction::LoopOpen => 0,
            Instruction::LoopClose => 1,
            Instruction::Increment => 2,
            Instruction::ShiftRight => 3,
        }
    }

    /// The instruction with the given two-bit code.
    pub fn of_code(c: u8) -> (r: Instruction)
        requires
            c < 4,
        ensures
            r == instruction_of_code(c),
    {
        if c == 0 {
            Instruction::LoopOpen
        } else if c == 1 {
            Instruction::LoopClose
        } else if c == 2 {
            Instruction::Increment
        } else {
            Instruction::ShiftRight
        }
    }

    /// Splits a byte into its four two-bit groups, most-significant pair
    /// first, and maps each to its instruction. Every two-bit value is a
    /// valid code, so this succeeds on all 256 bytes and always yields
    /// exactly 4 instructions.
    pub fn from_byte(byte: u8) -> (r: Vec<Instruction>)
        ensures
            r@ == decode_spec(byte),
            r@.len() == 4,
    {
        proof {
            assert((byte >> 6) & 3 < 4 && (byte >> 4) & 3 < 4 && (byte >> 2) & 3 < 4 && byte & 3
                < 4) by (bit_vector);
        }
        let mut r: Vec<Instruction> = Vec::new();
        r.push(Instruction::of_code((byte >> 6) & 3));
        r.push(Instruction::of_code((byte >> 4) & 3));
        r.push(Instruction::of_code((byte >> 2) & 3));
        r.push(Instruction::of_code(byte & 3));
        proof {
            assert(r@ =~= decode_spec(byte));
        }
        r
    }

    /// The two-bit code packed for a group slot: the instruction's code where
    /// the slot is filled, the padding code 0 where it is not.
    pub fn to_pair(i: Option<&Instruction>) -> (r: u8)
        ensures
            r == (match i {
                Some(x) => code_of(*x),
                None => 0,
            }),
            r < 4,
    {
        match i {
            Some(x) => x.code(),
            None => 0,
        }
    }

    /// Packs a group of at most four instructions into one byte, each
    /// instruction's code left-shifted into its slot, unfilled slots padded
    /// with code 0 (`LoopOpen`).
    pub fn to_byte(is: &Vec<Instruction>) -> (r: u8)
        requires
            is@.len() <= 4,
        ensures
            r == encode_spec(is@),
    {
        let c0 = Instruction::to_pair(if is.len() > 0 { Some(&is[0]) } else { None });
        let c1 = Instruction::to_pair(if is.len() > 1 { Some(&is[1]) } else { None });
        let c2 = Instruction::to_pair(if is.len() > 2 { Some(&is[2]) } else { None });
        let c3 = Instruction::to_pair(if is.len() > 3 { Some(&is[3]) } else { None });
        (c0 << 6) | (c1 << 4) | (c2 << 2) | c3
    }

    /// Maps each source byte to its instruction; the first byte outside the
    /// four-symbol alphabet fails the whole parse with
    /// `InvalidInstructionChar`.
    pub fn from_chars(chars: &Vec<u8>) -> (r: Result<Vec<Instruction>, LoadError>)
        ensures
            r is Ok <==> (forall|i: int|
                0 <= i < chars@.len() ==> is_instruction_byte(chars@[i])),
            r matches Ok(v) ==> v@ =~= chars@.map(|i: int, b: u8| instruction_of_byte(b)),
            r matches Err(e) ==> (e matches LoadError::InvalidInstructionChar(b) && exists|i: int|
                0 <= i < chars@.len() && chars@[i] == b && !is_instruction_byte(b) && (forall|j: int|
                    0 <= j < i ==> is_instruction_byte(chars@[j]))),
    {
        let mut out: Vec<Instruction> = Vec::new();
        let mut i: usize = 0;
        while i < chars.len()
            invariant
                i <= chars@.len(),
                out@.len() == i,
                forall|j: int| 0 <= j < i ==> is_instruction_byte(chars@[j]),
                forall|j: int| 0 <= j < i ==> out@[j] == instruction_of_byte(chars@[j]),
            decreases chars@.len() - i,
        {
            let b = chars[i];
            let inst = if b == 0x5b {
                Instruction::LoopOpen
            } else if b == 0x5d {
                Instruction::LoopClose
            } else if b == 0x2b {
                Instruction::Increment
            } else if b == 0x3e {
                Instruction::ShiftRight
            } else {
                return Err(LoadError::InvalidInstructionChar(b));
            };
            out.push(inst);
            i = i + 1;
        }
        proof {
            assert(out@ =~= chars@.map(|i: int, b: u8| instruction_of_byte(b)));
        }
        Ok(out)
    }
}

/// Round trip: decoding the byte that encodes a group of 1 to 4 instructions
/// reproduces the group, followed by `LoopOpen` padding for any missing slots.
pub proof fn lemma_round_trip(s: Seq<Instruction>)
    requires
        1 <= s.len() <= 4,
    ensures
        decode_spec(encode_spec(s)) == padded_spec(s),
{
    let c0 = pair_of(s, 0);
    let c1 = pair_of(s, 1);
    let c2 = pair_of(s, 2);
    let c3 = pair_of(s, 3);
    let b = encode_spec(s);
    assert(c0 < 4 && c1 < 4 && c2 < 4 && c3 < 4);
    assert(b == (c0 << 6) | (c1 << 4) | (c2 << 2) | c3);
    assert((((c0 << 6) | (c1 << 4) | (c2 << 2) | c3) >> 6) & 3 == c0
        && (((c0 << 6) | (c1 << 4) | (c2 << 2) | c3) >> 4) & 3 == c1
        && (((c0 << 6) | (c1 << 4) | (c2 << 2) | c3) >> 2) & 3 == c2
        && ((c0 << 6) | (c1 << 4) | (c2 << 2) | c3) & 3 == c3) by (bit_vector)
        requires
            c0 < 4 && c1 < 4 && c2 < 4 && c3 < 4,
    ;
    assert forall|i: Instruction| instruction_of_code(code_of(i)) == i by {}
    assert(decode_spec(b) =~= padded_spec(s));
}

} // verus!
