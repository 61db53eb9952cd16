use carter_emu::error::LoadError;
use carter_emu::instruction::Instruction;

fn inst(code: u8) -> Instruction {
    Instruction::of_code(code)
}

#[test]
fn decode_every_byte_yields_four_instructions() {
    for b in 0..=255u8 {
        let group = Instruction::from_byte(b);
        assert_eq!(group.len(), 4);
    }
}

#[test]
fn decode_is_most_significant_pair_first() {
    // 0b00_01_10_11: one instruction of each kind, in code order.
    let group = Instruction::from_byte(0b00_01_10_11);
    assert_eq!(
        group,
        vec![
            Instruction::LoopOpen,
            Instruction::LoopClose,
            Instruction::Increment,
            Instruction::ShiftRight,
        ]
    );
}

#[test]
fn encode_single_increment() {
    assert_eq!(Instruction::to_byte(&vec![Instruction::Increment]), 0x80);
}

#[test]
fn encode_empty_group_is_zero() {
    assert_eq!(Instruction::to_byte(&Vec::new()), 0);
}

#[test]
fn encode_full_group() {
    let group = vec![
        Instruction::LoopOpen,
        Instruction::Increment,
        Instruction::ShiftRight,
        Instruction::LoopClose,
    ];
    assert_eq!(Instruction::to_byte(&group), 0b00_10_11_01);
}

#[test]
fn round_trip_all_groups_up_to_four() {
    // Every group of 1 to 4 instructions survives an encode-decode round
    // trip, with LoopOpen filling the missing slots.
    for len in 1..=4usize {
        let mut counters = [0u8; 4];
        loop {
            let group: Vec<Instruction> = counters[..len].iter().map(|&c| inst(c)).collect();
            let byte = Instruction::to_byte(&group);
            let decoded = Instruction::from_byte(byte);
            assert_eq!(decoded.len(), 4);
            for k in 0..4 {
                let expected = if k < len { group[k] } else { Instruction::LoopOpen };
                assert_eq!(decoded[k], expected);
            }
            // Advance the odometer over all code combinations of this length.
            let mut pos = 0;
            while pos < len && counters[pos] == 3 {
                counters[pos] = 0;
                pos += 1;
            }
            if pos == len {
                break;
            }
            counters[pos] += 1;
        }
    }
}

#[test]
fn encode_decode_every_byte() {
    for b in 0..=255u8 {
        assert_eq!(Instruction::to_byte(&Instruction::from_byte(b)), b);
    }
}

#[test]
fn display_characters() {
    assert_eq!(Instruction::LoopOpen.to_char(), '[');
    assert_eq!(Instruction::LoopClose.to_char(), ']');
    assert_eq!(Instruction::Increment.to_char(), '+');
    assert_eq!(Instruction::ShiftRight.to_char(), '>');
}

#[test]
fn codes() {
    assert_eq!(Instruction::LoopOpen.code(), 0);
    assert_eq!(Instruction::LoopClose.code(), 1);
    assert_eq!(Instruction::Increment.code(), 2);
    assert_eq!(Instruction::ShiftRight.code(), 3);
}

#[test]
fn to_pair_of_missing_slot_is_padding() {
    assert_eq!(Instruction::to_pair(None), 0);
    assert_eq!(Instruction::to_pair(Some(&Instruction::ShiftRight)), 3);
}

#[test]
fn from_chars_parses_the_alphabet() {
    let parsed = Instruction::from_chars(&b"[]+>".to_vec()).unwrap();
    assert_eq!(
        parsed,
        vec![
            Instruction::LoopOpen,
            Instruction::LoopClose,
            Instruction::Increment,
            Instruction::ShiftRight,
        ]
    );
}

#[test]
fn from_chars_rejects_a_stray_byte() {
    let r = Instruction::from_chars(&b"+a+".to_vec());
    assert_eq!(r, Err(LoadError::InvalidInstructionChar(b'a')));
}

#[test]
fn from_chars_reports_the_first_invalid_byte() {
    let r = Instruction::from_chars(&b"+x>y".to_vec());
    assert_eq!(r, Err(LoadError::InvalidInstructionChar(b'x')));
}
