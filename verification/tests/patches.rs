use swr_survival::survival_manager::{
    byte_patches, u16_to_be_bytes, SurvivalManager, SurvivalPatches, ADD_CARDS_CODE,
    SAVE_CLEAR_JUMP, SAVE_REPLAY_CLEAR_JUMP, SAVE_REPLAY_INTERRUPTED_JUMP, SAVE_RESULT_CALL,
};
use swr_survival::tamperer::{
    i32_from_le_bytes, i32_to_le_bytes, near_jmp_destination, near_jmp_operand,
    near_jmp_operator_bytes, Tamperer,
};

#[test]
fn near_jump_operand_forward_and_backward() {
    assert_eq!(near_jmp_operand(0x4059F3, 0x10001000), 0x10001000 - 0x4059F8);
    assert_eq!(near_jmp_operand(0x4059F3, 0x401000), 0x401000 - 0x4059F8);
    assert_eq!(near_jmp_operand(0x10, 0xFFFF_FFF0), -0x25);
}

#[test]
fn near_jump_patch_bytes() {
    let bytes = near_jmp_operator_bytes(0xE8, 0x4059F3, 0x10001000);
    let operand = (0x10001000i64 - 0x4059F8i64) as i32;
    let mut expected = vec![0xE8u8];
    expected.extend_from_slice(&operand.to_le_bytes());
    assert_eq!(bytes, expected);
}

#[test]
fn near_jump_round_trip() {
    for &(addr, target) in &[
        (0x4059F3u32, 0x10001000u32),
        (0x40EB63, 0x401000),
        (0x40EB63, 0x40EB68),
        (0x7FFF_0000, 0x0000_1000),
    ] {
        let patch = near_jmp_operator_bytes(0xE9, addr, target);
        let t = Tamperer::new(addr, patch);
        assert_eq!(t.jmp_target_addr(), target);
        assert_eq!(t.checked_jmp_target_addr(), Some(target));
    }
}

#[test]
fn jump_target_of_recorded_call() {
    // e8 f8 0f 00 00 at 0x401000 calls 0x401000 + 5 + 0xff8.
    let t = Tamperer::new(0x401000, vec![0xE8, 0xF8, 0x0F, 0x00, 0x00]);
    assert_eq!(t.jmp_target_addr(), 0x402000 - 3);
    assert_eq!(t.address(), 0x401000);
    assert_eq!(t.original_operators(), &vec![0xE8, 0xF8, 0x0F, 0x00, 0x00]);
}

#[test]
fn jump_target_refused_for_short_or_overflowing_records() {
    assert_eq!(Tamperer::new(0x401000, vec![0xEB]).checked_jmp_target_addr(), None);
    // 0x7fffffff + 5 overflows i32.
    let t = Tamperer::new(0x7FFF_FFFF, vec![0xE9, 0, 0, 0, 0]);
    assert_eq!(t.checked_jmp_target_addr(), None);
    let t = Tamperer::new(0x4000_0000, vec![0xE9, 0xFF, 0xFF, 0xFF, 0x7F]);
    assert_eq!(t.checked_jmp_target_addr(), None);
}

#[test]
fn destination_and_le_bytes() {
    assert_eq!(near_jmp_destination(0x1000, -0x10), 0xFF5);
    assert_eq!(near_jmp_destination(0x8000_0000, 0), 0x8000_0005);
    assert_eq!(i32_to_le_bytes(-2), vec![0xFE, 0xFF, 0xFF, 0xFF]);
    assert_eq!(i32_to_le_bytes(0x01020304), vec![4, 3, 2, 1]);
    assert_eq!(i32_from_le_bytes(0xFE, 0xFF, 0xFF, 0xFF), -2);
    assert_eq!(i32_from_le_bytes(4, 3, 2, 1), 0x01020304);
}

#[test]
fn survival_byte_patches() {
    assert_eq!(u16_to_be_bytes(0x90E9), vec![0x90, 0xE9]);
    assert_eq!(
        byte_patches(),
        vec![
            (SAVE_CLEAR_JUMP, vec![0xEB]),
            (ADD_CARDS_CODE, vec![0x90, 0xE9]),
            (SAVE_RESULT_CALL, vec![0x90, 0x90, 0x90, 0x90, 0x90]),
            (SAVE_REPLAY_INTERRUPTED_JUMP, vec![0xEB]),
            (SAVE_REPLAY_CLEAR_JUMP, vec![0xEB]),
        ]
    );
}

fn patches() -> SurvivalPatches {
    SurvivalPatches {
        load_txt: Tamperer::new(0x4059F3, vec![0xE8, 0x08, 0x00, 0x00, 0x00]),
        load_csv: Tamperer::new(0x40EB63, vec![0xE8, 0x10, 0x00, 0x00, 0x00]),
        save_clear: Tamperer::new(0x42D62B, vec![0x74]),
        add_cards: Tamperer::new(0x43EA8C, vec![0x0F, 0x84]),
        save_result: Tamperer::new(0x43EB5B, vec![1, 2, 3, 4, 5]),
        save_replay_interrupted: Tamperer::new(0x43EE11, vec![0x75]),
        save_replay_clear: Tamperer::new(0x4433DF, vec![0x74]),
    }
}

#[test]
fn manager_starts_off() {
    let m = SurvivalManager::new();
    assert!(!m.is_active());
    assert_eq!(m.original_load_txt(), None);
    assert_eq!(m.original_load_csv(), None);
}

#[test]
fn manager_tamper_then_restore_hands_back_patches() {
    let mut m = SurvivalManager::new();
    let displaced = m.tamper(patches());
    assert!(displaced.is_empty());
    assert!(m.is_active());
    assert_eq!(m.original_load_txt(), Some(0x4059F3 + 5 + 8));
    assert_eq!(m.original_load_csv(), Some(0x40EB63 + 5 + 0x10));
    let removed = m.restore();
    assert!(!m.is_active());
    let addrs: Vec<u32> = removed.iter().map(|t| t.address()).collect();
    assert_eq!(
        addrs,
        vec![0x4059F3, 0x40EB63, 0x42D62B, 0x43EA8C, 0x43EB5B, 0x43EE11, 0x4433DF]
    );
    assert_eq!(removed[3].original_operators(), &vec![0x0F, 0x84]);
    assert!(m.restore().is_empty());
}

#[test]
fn manager_tamper_twice_displaces_previous_patches() {
    let mut m = SurvivalManager::new();
    m.tamper(patches());
    let displaced = m.tamper(patches());
    assert_eq!(displaced.len(), 7);
    assert!(m.is_active());
}
