use swr_survival::scenario_txt::{build_ending_txt, build_scenario_txt};
use swr_survival::story_csv::build_story_csv;

const STORY_CSV: &str = "15\n0,reimu,7,4\n248,248,248,248,0\n0,1,2,3,1\n4,5,6,7,1\n248,248,248,248,0\n8,9,10,11,1\n12,13,14,15,1\n16,17,18,19,2\n1,marisa,4,2\n248,248,248,248,0\n0,1,2,3,1\n4,5,6,7,1\n8,9,10,11,2\n2,sakuya,6,3\n248,248,248,248,0\n0,1,2,3,1\n4,5,6,7,1\n248,248,248,248,0\n8,9,10,11,1\n12,13,14,15,2\n3,alice,4,2\n248,248,248,248,0\n0,1,2,3,1\n4,5,6,7,1\n8,9,10,11,2\n4,patchouli,4,2\n248,248,248,248,0\n0,1,2,3,1\n4,5,6,7,1\n8,9,10,11,2\n5,youmu,6,3\n248,248,248,248,0\n0,1,2,3,1\n4,5,6,7,1\n248,248,248,248,0\n8,9,10,11,1\n12,13,14,15,2\n6,remilia,6,3\n248,248,248,248,0\n0,1,2,3,1\n4,5,6,7,1\n248,248,248,248,0\n8,9,10,11,1\n12,13,14,15,2\n7,yuyuko,4,2\n248,248,248,248,0\n0,1,2,3,1\n4,5,6,7,1\n8,9,10,11,2\n8,yukari,7,4\n248,248,248,248,0\n0,1,2,3,1\n4,5,6,7,1\n248,248,248,248,0\n8,9,10,11,1\n12,13,14,15,1\n16,17,18,19,2\n9,suika,7,4\n248,248,248,248,0\n0,1,2,3,1\n4,5,6,7,1\n248,248,248,248,0\n8,9,10,11,1\n12,13,14,15,1\n16,17,18,19,2\n10,udonge,4,2\n248,248,248,248,0\n0,1,2,3,1\n4,5,6,7,1\n8,9,10,11,2\n11,aya,6,3\n248,248,248,248,0\n0,1,2,3,1\n4,5,6,7,1\n248,248,248,248,0\n8,9,10,11,1\n12,13,14,15,2\n12,komachi,4,2\n248,248,248,248,0\n0,1,2,3,1\n4,5,6,7,1\n8,9,10,11,2\n13,iku,6,3\n248,248,248,248,0\n0,1,2,3,1\n4,5,6,7,1\n248,248,248,248,0\n8,9,10,11,1\n12,13,14,15,2\n14,tenshi,7,4\n248,248,248,248,0\n0,1,2,3,1\n4,5,6,7,1\n248,248,248,248,0\n8,9,10,11,1\n12,13,14,15,2\n16,17,18,19,2\n";

#[test]
fn story_csv_is_the_whole_table() {
    assert_eq!(build_story_csv(), STORY_CSV);
}

#[test]
fn story_csv_first_line_counts_characters() {
    let csv = build_story_csv();
    assert_eq!(csv.lines().next(), Some("15"));
    assert!(csv.ends_with("\n"));
    let headers = csv.lines().filter(|l| l.split(',').count() == 4).count();
    assert_eq!(headers, 15);
}

#[test]
fn story_csv_tenshi_block() {
    let csv = build_story_csv();
    let lines: Vec<&str> = csv.lines().collect();
    let at = lines.iter().position(|l| *l == "14,tenshi,7,4").unwrap();
    assert_eq!(
        &lines[at + 1..],
        &[
            "248,248,248,248,0",
            "0,1,2,3,1",
            "4,5,6,7,1",
            "248,248,248,248,0",
            "8,9,10,11,1",
            "12,13,14,15,2",
            "16,17,18,19,2",
        ]
    );
}

#[test]
fn scenario_first_stage_reimu() {
    assert_eq!(build_scenario_txt("reimu", 0), "\nCharacter:left,160,0,0,8888FF\nCharacter:right,160,0,1,FF8888\n\n\nStage:0,0\n\n\nAction:right,103\nAction:right,100\nAction:left,4\nAction:left,152\n\nLabel:Start\nPlayBgm:data/bgm/st10.ogg\nAction:left,2\n\nSleep:60;\nAction:right,101\nAction:right,102\n\nAction:left,3\nEnd:\n\nLabel:Continue\nAction:right,113\nEnd:\n\nLabel:Win\n\nAction:right,200\nAction:left,202\n\n\nFadeBgm:2000,0\nStage:11,120\nAction:right,201\nAction:left,150\nAction:left,4\nSleep:120;\n\nEnd:\n");
}

#[test]
fn scenario_first_stage_remilia_keeps_her_weather() {
    assert_eq!(build_scenario_txt("remilia", 0), "\nCharacter:left,160,0,0,8888FF\nCharacter:right,160,0,1,FF8888\n\n\nStage:0,0\nAction:left,103\n\n\nAction:right,100\nAction:left,4\nAction:left,152\n\nLabel:Start\nPlayBgm:data/bgm/st10.ogg\nAction:left,2\n\nSleep:60;\nAction:right,101\nAction:right,102\n\nAction:left,3\nEnd:\n\nLabel:Continue\nAction:left,113\nEnd:\n\nLabel:Win\n\nAction:right,200\nAction:left,202\n\n\nFadeBgm:2000,0\nStage:11,120\nAction:right,201\nAction:left,150\nAction:left,4\nSleep:120;\n\nEnd:\n");
}

#[test]
fn scenario_suika_stage_has_her_action() {
    let txt = build_scenario_txt("marisa", 9);
    assert_eq!(txt, "\nCharacter:left,160,0,0,8888FF\nCharacter:right,160,0,1,FF8888\n\n\nAction:right,103\nAction:right,100\nAction:left,4\nAction:left,152\n\nLabel:Start\nPlayBgm:data/bgm/st19.ogg\nAction:left,2\n\nSleep:60;\nAction:right,101\nAction:right,102\nAction:right,107\nAction:left,3\nEnd:\n\nLabel:Continue\nAction:right,113\nEnd:\n\nLabel:Win\n\nAction:right,200\nAction:left,202\n\n\nFadeBgm:2000,0\nStage:18,120\nAction:right,201\nAction:left,150\nAction:left,4\nSleep:120;\n\nEnd:\n");
    assert!(txt.contains("Action:right,107"));
}

#[test]
fn scenario_last_stage_has_no_next_stage() {
    let txt = build_scenario_txt("remilia", 14);
    assert_eq!(txt, "\nCharacter:left,160,0,0,8888FF\nCharacter:right,160,0,1,FF8888\n\n\n\nAction:right,100\nAction:left,4\nAction:left,152\n\nLabel:Start\nPlayBgm:data/bgm/st05.ogg\nAction:left,2\n\nSleep:60;\nAction:right,101\nAction:right,102\n\nAction:left,3\nEnd:\n\nLabel:Continue\nAction:left,113\nEnd:\n\nLabel:Win\n\nAction:right,200\nAction:left,202\n\n\nEnd:\n");
    assert!(!txt.contains("FadeBgm"));
}

#[test]
fn scenario_middle_stage_moves_on() {
    let txt = build_scenario_txt("sakuya", 3);
    assert_eq!(txt, "\nCharacter:left,160,0,0,8888FF\nCharacter:right,160,0,1,FF8888\n\n\nAction:right,103\nAction:right,100\nAction:left,4\nAction:left,152\n\nLabel:Start\nPlayBgm:data/bgm/st13.ogg\nAction:left,2\n\nSleep:60;\nAction:right,101\nAction:right,102\n\nAction:left,3\nEnd:\n\nLabel:Continue\nAction:right,113\nEnd:\n\nLabel:Win\n\nAction:right,200\nAction:left,202\n\n\nFadeBgm:2000,0\nStage:14,120\nAction:right,201\nAction:left,150\nAction:left,4\nSleep:120;\n\nEnd:\n");
    assert!(txt.contains("PlayBgm:data/bgm/st13.ogg"));
    assert!(txt.contains("\nStage:14,120\n"));
}

#[test]
fn scenario_ignores_player_other_than_remilia() {
    assert_eq!(build_scenario_txt("reimu", 5), build_scenario_txt("aya", 5));
    assert_ne!(build_scenario_txt("reimu", 5), build_scenario_txt("remilia", 5));
}

#[test]
fn ending_script() {
    assert_eq!(
        build_ending_txt(),
        "#\nLabel:Start\n\nPlayBgm:data/bgm/sr.ogg\nCongratulations!\\\n\nEnd:\n"
    );
}
