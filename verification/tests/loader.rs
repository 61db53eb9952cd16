use carter_emu::error::LoadError;
use carter_emu::loader::load_program;

#[test]
fn load_packs_at_the_front_and_zero_pads() {
    let mem = load_program(&b"+".to_vec()).unwrap();
    assert_eq!(mem.len(), 256);
    assert_eq!(mem[0], 0x80);
    for k in 1..256 {
        assert_eq!(mem[k], 0);
    }
}

#[test]
fn load_empty_program_is_all_zero() {
    let mem = load_program(&Vec::new()).unwrap();
    assert_eq!(mem.len(), 256);
    assert!(mem.iter().all(|&b| b == 0));
}

#[test]
fn load_groups_of_four() {
    // Five instructions: one full group and one group of a single
    // instruction padded with LoopOpen.
    let mem = load_program(&b"[[+]]".to_vec()).unwrap();
    assert_eq!(mem[0], 0b00_00_10_01);
    assert_eq!(mem[1], 0b01_00_00_00);
    assert_eq!(mem[2], 0);
}

#[test]
fn load_exactly_1024_instructions_fills_memory() {
    let src = vec![b'+'; 1024];
    let mem = load_program(&src).unwrap();
    assert_eq!(mem.len(), 256);
    assert!(mem.iter().all(|&b| b == 0b10_10_10_10));
}

#[test]
fn load_1025_instructions_is_too_large() {
    let src = vec![b'+'; 1025];
    assert_eq!(load_program(&src), Err(LoadError::ProgramTooLarge));
}

#[test]
fn load_rejects_an_invalid_byte() {
    assert_eq!(
        load_program(&b"[+.]".to_vec()),
        Err(LoadError::InvalidInstructionChar(b'.'))
    );
}

#[test]
fn invalid_byte_is_reported_before_the_size_check() {
    let mut src = vec![b'+'; 1025];
    src[1024] = b'!';
    assert_eq!(
        load_program(&src),
        Err(LoadError::InvalidInstructionChar(b'!'))
    );
}
