use swr_survival::debug::encode;
use swr_survival::file_hooks::{
    answer_csv, answer_csv_request, answer_txt, answer_txt_request, LoadError,
};
use swr_survival::scenario_txt::{build_ending_txt, build_scenario_txt};
use swr_survival::select_scenario::{
    survival_caption, toggle_on_update, toggle_sound, Toggle, SOUND_SURVIVAL_OFF,
    SOUND_SURVIVAL_ON,
};
use swr_survival::story_csv::build_story_csv;
use swr_survival::text::{decimal_string, parse_i32, same_text, zero_pad};
use swr_survival::text_texture::{create_font_desc, TextTextureFactory, FACE_NAME_LEN};

#[test]
fn txt_request_for_a_stage() {
    let answer = answer_txt_request(b"data/scenario/reimu/0.txt");
    let expected = build_scenario_txt("reimu", 0).into_bytes();
    assert_eq!(answer, Ok(Some(expected)));
    let answer = answer_txt_request(b"data/scenario/remilia/14.txt");
    assert_eq!(answer, Ok(Some(build_scenario_txt("remilia", 14).into_bytes())));
}

#[test]
fn txt_request_with_japanese_directory() {
    // "data/scenario/れいむ/3.txt" in Shift_JIS.
    let mut name = b"data/scenario/".to_vec();
    name.extend_from_slice(&[0x82, 0xEA, 0x82, 0xA2, 0x82, 0xDE]);
    name.extend_from_slice(b"/3.txt");
    let answer = answer_txt_request(&name);
    assert_eq!(answer, Ok(Some(build_scenario_txt("れいむ", 3).into_bytes())));
}

#[test]
fn txt_request_for_the_ending() {
    let answer = answer_txt_request(b"data/scenario/reimu/ed.txt");
    assert_eq!(answer, Ok(Some(build_ending_txt().as_bytes().to_vec())));
}

#[test]
fn txt_request_for_other_files_goes_to_the_game() {
    assert_eq!(answer_txt_request(b"data/csv/reimu/story.csv"), Ok(None));
    assert_eq!(answer_txt_request(b"data/scenario/reimu/op.txt"), Ok(None));
    assert_eq!(answer_txt_request(b""), Ok(None));
}

#[test]
fn txt_request_errors() {
    assert_eq!(
        answer_txt_request(b"data/scenario/reimu/15.txt"),
        Err(LoadError::StageOutOfRange)
    );
    assert_eq!(
        answer_txt_request(b"data/scenario/reimu/99999999999.txt"),
        Err(LoadError::BadStageNumber)
    );
}

#[test]
fn txt_answer_from_captures() {
    let caps = Some(vec![
        Some("data/scenario/aya/2.txt".to_string()),
        Some("aya".to_string()),
        Some("2".to_string()),
    ]);
    assert_eq!(answer_txt(caps, false), Ok(Some(build_scenario_txt("aya", 2))));
    let missing = Some(vec![Some("x".to_string()), None, Some("2".to_string())]);
    assert_eq!(answer_txt(missing, false), Err(LoadError::MissingGroup));
    let short = Some(vec![Some("x".to_string())]);
    assert_eq!(answer_txt(short, true), Err(LoadError::MissingGroup));
    let negative = Some(vec![
        Some("x".to_string()),
        Some("aya".to_string()),
        Some("-1".to_string()),
    ]);
    assert_eq!(answer_txt(negative, false), Err(LoadError::StageOutOfRange));
    assert_eq!(answer_txt(None, true), Ok(Some(build_ending_txt().to_string())));
    assert_eq!(answer_txt(None, false), Ok(None));
}

#[test]
fn csv_requests() {
    let story = build_story_csv().into_bytes();
    assert_eq!(answer_csv_request(b"data/csv/reimu/story.csv"), Ok(Some(story.clone())));
    assert_eq!(answer_csv_request(b"data/csv/reimu/spell.csv"), Ok(None));
    assert_eq!(answer_csv(true), Ok(Some(story)));
    assert_eq!(answer_csv(false), Ok(None));
}

#[test]
fn texture_text_is_shift_jis_with_nul() {
    let factory = TextTextureFactory::new();
    // "サバイバル" in Shift_JIS, then NUL.
    assert_eq!(
        factory.texture_text("サバイバル"),
        vec![0x83, 0x54, 0x83, 0x6F, 0x83, 0x43, 0x83, 0x6F, 0x83, 0x8B, 0x00]
    );
    assert_eq!(factory.texture_text("Survival Mode v0.1.0"), b"Survival Mode v0.1.0\0".to_vec());
}

#[test]
fn caption_font() {
    let desc = create_font_desc();
    assert_eq!(desc.face_name.len(), FACE_NAME_LEN);
    assert_eq!(&desc.face_name[..10], b"MS Gothic\0");
    assert!(desc.face_name[10..].iter().all(|&b| b == 0));
    assert_eq!((desc.r1, desc.r2, desc.g1, desc.g2, desc.b1, desc.b2), (0xFF, 0xA0, 0xFF, 0xA0, 0xFF, 0xFF));
    assert_eq!((desc.height, desc.weight), (0x20, 300));
    assert_eq!((desc.italic, desc.shadow, desc.use_offset), (0, 1, 0));
    assert_eq!(desc.buffer_size, 100000);
    assert_eq!((desc.offset_x, desc.offset_y, desc.char_space_x, desc.char_space_y), (0, 0, 0, 2));
    let factory = TextTextureFactory::new();
    assert_eq!(factory.font().face_name, desc.face_name);
}

#[test]
fn toggling_the_mode() {
    assert_eq!(toggle_on_update(false, 1), Toggle::TurnOn);
    assert_eq!(toggle_on_update(true, 1), Toggle::TurnOff);
    assert_eq!(toggle_on_update(true, 0), Toggle::Keep);
    assert_eq!(toggle_on_update(false, 2), Toggle::Keep);
    assert_eq!(toggle_sound(Toggle::TurnOn), Some(SOUND_SURVIVAL_ON));
    assert_eq!(toggle_sound(Toggle::TurnOff), Some(SOUND_SURVIVAL_OFF));
    assert_eq!(toggle_sound(Toggle::Keep), None);
    assert_eq!((SOUND_SURVIVAL_ON, SOUND_SURVIVAL_OFF), (0x30, 0x29));
}

#[test]
fn caption_text() {
    assert_eq!(survival_caption("0.1.0"), "Survival Mode v0.1.0");
}

#[test]
fn numbers() {
    assert_eq!(decimal_string(0), "0");
    assert_eq!(decimal_string(4294967295), "4294967295");
    assert_eq!(zero_pad(5, 2), "05");
    assert_eq!(zero_pad(22, 2), "22");
    assert_eq!(zero_pad(123, 2), "123");
    assert_eq!(zero_pad(0, 0), "0");
    assert_eq!(parse_i32("17"), Some(17));
    assert_eq!(parse_i32("+12"), Some(12));
    assert_eq!(parse_i32("-2147483648"), Some(i32::MIN));
    assert_eq!(parse_i32("2147483647"), Some(i32::MAX));
    assert_eq!(parse_i32("2147483648"), None);
    assert_eq!(parse_i32(""), None);
    assert_eq!(parse_i32("-"), None);
    assert_eq!(parse_i32("1a"), None);
    assert_eq!(parse_i32("\u{0661}"), None);
    for s in ["0", "+7", "-0", "007", "-42", "99999999999"] {
        assert_eq!(parse_i32(s), s.parse::<i32>().ok());
    }
}

#[test]
fn text_comparison() {
    assert!(same_text("remilia", "remilia"));
    assert!(!same_text("remilia", "remili"));
}

#[test]
fn debug_message_surrogates() {
    assert_eq!(encode("a\u{1F600}"), vec![0x61, 0xD83D, 0xDE00, 0]);
    assert_eq!(encode(""), vec![0]);
}
