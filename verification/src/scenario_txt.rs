//! The scenario scripts of the survival mode: one script per stage, played
//! in story order, and the ending script.

use vstd::prelude::*;
use vstd::string::StringExecFns;
use crate::text::{decimal, ends_with, lemma_decimal_len_small, lemma_ends_with_append, push_decimal, push_zero_padded, same_text, zero_padded};

verus! {

/// Number of stages of the survival mode.
pub const STAGE_COUNT: i32 = 15;

/// The stages, in order: the enemy, the stage (background) number and the
/// music number.
pub open spec fn scenario_stage(i: int) -> (Seq<char>, int, int) {
    if i == 0 {
        ("reimu"@, 0, 10)
    } else if i == 1 {
        ("marisa"@, 11, 11)
    } else if i == 2 {
        ("sakuya"@, 12, 12)
    } else if i == 3 {
        ("alice"@, 13, 13)
    } else if i == 4 {
        ("patchouli"@, 14, 15)
    } else if i == 5 {
        ("youmu"@, 15, 14)
    } else if i == 6 {
        ("remilia"@, 16, 17)
    } else if i == 7 {
        ("yuyuko"@, 17, 16)
    } else if i == 8 {
        ("yukari"@, 10, 18)
    } else if i == 9 {
        ("suika"@, 5, 19)
    } else if i == 10 {
        ("udonge"@, 18, 20)
    } else if i == 11 {
        ("aya"@, 3, 21)
    } else if i == 12 {
        ("komachi"@, 2, 22)
    } else if i == 13 {
        ("iku"@, 4, 4)
    } else {
        ("tenshi"@, 5, 5)
    }
}

/// Whether the player's character is Remilia, whose weather stays fixed on
/// her side.
pub open spec fn is_remilia(player: Seq<char>) -> bool {
    player == "remilia"@
}

/// The opening of the first stage only: its stage number, and for Remilia
/// her fixed weather action.
pub open spec fn first_script(player: Seq<char>, index: int) -> Seq<char> {
    if index == 0 {
        "\nStage:"@ + decimal(scenario_stage(index).1 as nat) + ",0\n"@ + (if is_remilia(player) {
            "Action:left,103"@
        } else {
            ""@
        }) + "\n"@
    } else {
        ""@
    }
}

/// The weather action of the stage: the enemy's, unless the player is
/// Remilia.
pub open spec fn weather_script(player: Seq<char>) -> Seq<char> {
    if is_remilia(player) {
        ""@
    } else {
        "Action:right,103"@
    }
}

/// The action that only Suika, as enemy, performs.
pub open spec fn additional_script(index: int) -> Seq<char> {
    if scenario_stage(index).0 == "suika"@ {
        "Action:right,107"@
    } else {
        ""@
    }
}

/// The move to the next stage after a win; empty on the last stage.
pub open spec fn next_stage_script(index: int) -> Seq<char> {
    if index + 1 < STAGE_COUNT {
        "\nFadeBgm:2000,0\nStage:"@ + decimal(scenario_stage(index + 1).1 as nat)
            + ",120\nAction:right,201\nAction:left,150\nAction:left,4\nSleep:120;\n"@
    } else {
        ""@
    }
}

/// The side whose weather is set again on a continue.
pub open spec fn continue_side(player: Seq<char>) -> Seq<char> {
    if is_remilia(player) {
        "left"@
    } else {
        "right"@
    }
}

/// The script of stage `index` (0 to 14) for the player's character
/// `player`.
pub open spec fn scenario_txt(player: Seq<char>, index: int) -> Seq<char> {
    "\nCharacter:left,160,0,0,8888FF\nCharacter:right,160,0,1,FF8888\n\n"@ + first_script(
        player,
        index,
    ) + "\n"@ + weather_script(player)
        + "\nAction:right,100\nAction:left,4\nAction:left,152\n\nLabel:Start\nPlayBgm:data/bgm/st"@
        + zero_padded(scenario_stage(index).2 as nat, 2)
        + ".ogg\nAction:left,2\n\nSleep:60;\nAction:right,101\nAction:right,102\n"@
        + additional_script(index) + "\nAction:left,3\nEnd:\n\nLabel:Continue\nAction:"@
        + continue_side(player) + ",113\nEnd:\n\nLabel:Win\n\nAction:right,200\nAction:left,202\n\n"@
        + next_stage_script(index) + "\nEnd:\n"@
}

/// The ending script.
pub open spec fn ending_txt() -> Seq<char> {
    "#\nLabel:Start\n\nPlayBgm:data/bgm/sr.ogg\nCongratulations!\\\n\nEnd:\n"@
}

/// The player's character changes a script only when it is Remilia: any two
/// other characters get the same script for the same stage.
pub proof fn lemma_only_remilia_matters(a: Seq<char>, b: Seq<char>, index: int)
    requires
        !is_remilia(a),
        !is_remilia(b),
    ensures
        scenario_txt(a, index) == scenario_txt(b, index),
{
}

/// The enemy of stage 9, and only of stage 9, is Suika.
pub proof fn lemma_suika_stage(index: int)
    requires
        0 <= index < STAGE_COUNT,
    ensures
        (scenario_stage(index).0 == "suika"@) <==> index == 9,
{
    reveal_strlit("reimu");
    reveal_strlit("marisa");
    reveal_strlit("sakuya");
    reveal_strlit("alice");
    reveal_strlit("patchouli");
    reveal_strlit("youmu");
    reveal_strlit("remilia");
    reveal_strlit("yuyuko");
    reveal_strlit("yukari");
    reveal_strlit("suika");
    reveal_strlit("udonge");
    reveal_strlit("aya");
    reveal_strlit("komachi");
    reveal_strlit("iku");
    reveal_strlit("tenshi");
    let name = scenario_stage(index).0;
    if index != 9 {
        if name.len() == 5 {
            assert(name[0] != "suika"@[0] || name[1] != "suika"@[1]);
        }
    }
}

/// After a win, every stage but the last fades the music out and moves on
/// to the stage of the next enemy, and the script ends there; the last
/// stage's script ends right after the win actions, moving nowhere.
pub proof fn lemma_stage_moves_to_next(player: Seq<char>, index: int)
    requires
        0 <= index < STAGE_COUNT,
    ensures
        index < STAGE_COUNT - 1 ==> ends_with(
            scenario_txt(player, index),
            ",113\nEnd:\n\nLabel:Win\n\nAction:right,200\nAction:left,202\n\n"@
                + "\nFadeBgm:2000,0\nStage:"@ + decimal(scenario_stage(index + 1).1 as nat)
                + ",120\nAction:right,201\nAction:left,150\nAction:left,4\nSleep:120;\n"@
                + "\nEnd:\n"@,
        ),
        index == STAGE_COUNT - 1 ==> ends_with(
            scenario_txt(player, index),
            ",113\nEnd:\n\nLabel:Win\n\nAction:right,200\nAction:left,202\n\n"@ + "\nEnd:\n"@,
        ),
{
    reveal_strlit("");
    let t = scenario_txt(player, index);
    let head = "\nCharacter:left,160,0,0,8888FF\nCharacter:right,160,0,1,FF8888\n\n"@ + first_script(
        player,
        index,
    ) + "\n"@ + weather_script(player)
        + "\nAction:right,100\nAction:left,4\nAction:left,152\n\nLabel:Start\nPlayBgm:data/bgm/st"@
        + zero_padded(scenario_stage(index).2 as nat, 2)
        + ".ogg\nAction:left,2\n\nSleep:60;\nAction:right,101\nAction:right,102\n"@
        + additional_script(index) + "\nAction:left,3\nEnd:\n\nLabel:Continue\nAction:"@
        + continue_side(player);
    let tail = ",113\nEnd:\n\nLabel:Win\n\nAction:right,200\nAction:left,202\n\n"@
        + next_stage_script(index) + "\nEnd:\n"@;
    assert(t =~= head + tail);
    lemma_ends_with_append(head, tail);
    if index < STAGE_COUNT - 1 {
        assert(tail =~= ",113\nEnd:\n\nLabel:Win\n\nAction:right,200\nAction:left,202\n\n"@
            + "\nFadeBgm:2000,0\nStage:"@ + decimal(scenario_stage(index + 1).1 as nat)
            + ",120\nAction:right,201\nAction:left,150\nAction:left,4\nSleep:120;\n"@ + "\nEnd:\n"@);
    } else {
        assert(tail =~= ",113\nEnd:\n\nLabel:Win\n\nAction:right,200\nAction:left,202\n\n"@
            + "\nEnd:\n"@);
    }
}

/// Between the enemy's two opening actions and the player's ready action,
/// a stage script has Suika's own action exactly on stage 9, whose enemy is
/// Suika, and nothing on every other stage; everything after that point is
/// fixed apart from the continue side and the move to the next stage.
pub proof fn lemma_suika_action_only_on_her_stage(player: Seq<char>, index: int)
    requires
        0 <= index < STAGE_COUNT,
    ensures
        ends_with(
            scenario_txt(player, index),
            "Action:right,101\nAction:right,102\n"@ + (if index == 9 {
                "Action:right,107"@
            } else {
                ""@
            }) + "\nAction:left,3\nEnd:\n\nLabel:Continue\nAction:"@ + (if player == "remilia"@ {
                "left"@
            } else {
                "right"@
            }) + ",113\nEnd:\n\nLabel:Win\n\nAction:right,200\nAction:left,202\n\n"@
                + next_stage_script(index) + "\nEnd:\n"@,
        ),
{
    lemma_suika_stage(index);
    reveal_strlit(".ogg\nAction:left,2\n\nSleep:60;\nAction:right,101\nAction:right,102\n");
    reveal_strlit("Action:right,101\nAction:right,102\n");
    let piece = ".ogg\nAction:left,2\n\nSleep:60;\nAction:right,101\nAction:right,102\n"@;
    let short = "Action:right,101\nAction:right,102\n"@;
    let lead = piece.subrange(0, piece.len() - short.len());
    assert(piece =~= lead + short);
    let t = scenario_txt(player, index);
    let head = "\nCharacter:left,160,0,0,8888FF\nCharacter:right,160,0,1,FF8888\n\n"@ + first_script(
        player,
        index,
    ) + "\n"@ + weather_script(player)
        + "\nAction:right,100\nAction:left,4\nAction:left,152\n\nLabel:Start\nPlayBgm:data/bgm/st"@
        + zero_padded(scenario_stage(index).2 as nat, 2) + lead;
    let tail = short + additional_script(index) + "\nAction:left,3\nEnd:\n\nLabel:Continue\nAction:"@
        + continue_side(player) + ",113\nEnd:\n\nLabel:Win\n\nAction:right,200\nAction:left,202\n\n"@
        + next_stage_script(index) + "\nEnd:\n"@;
    assert(t =~= head + tail);
    lemma_ends_with_append(head, tail);
}

/// Every scenario script is at most 1000 characters long, whatever the
/// player's character.
pub proof fn lemma_scenario_txt_len(player: Seq<char>, index: int)
    requires
        0 <= index < STAGE_COUNT,
    ensures
        scenario_txt(player, index).len() <= 1000,
{
    reveal_strlit("\nCharacter:left,160,0,0,8888FF\nCharacter:right,160,0,1,FF8888\n\n");
    reveal_strlit("\n");
    reveal_strlit("");
    reveal_strlit("\nStage:");
    reveal_strlit(",0\n");
    reveal_strlit("Action:left,103");
    reveal_strlit("Action:right,103");
    reveal_strlit("\nAction:right,100\nAction:left,4\nAction:left,152\n\nLabel:Start\nPlayBgm:data/bgm/st");
    reveal_strlit(".ogg\nAction:left,2\n\nSleep:60;\nAction:right,101\nAction:right,102\n");
    reveal_strlit("Action:right,107");
    reveal_strlit("\nAction:left,3\nEnd:\n\nLabel:Continue\nAction:");
    reveal_strlit("left");
    reveal_strlit("right");
    reveal_strlit(",113\nEnd:\n\nLabel:Win\n\nAction:right,200\nAction:left,202\n\n");
    reveal_strlit("\nFadeBgm:2000,0\nStage:");
    reveal_strlit(",120\nAction:right,201\nAction:left,150\nAction:left,4\nSleep:120;\n");
    reveal_strlit("\nEnd:\n");
    lemma_decimal_len_small(scenario_stage(index).1 as nat);
    lemma_decimal_len_small(scenario_stage(index).2 as nat);
    if index + 1 < STAGE_COUNT {
        lemma_decimal_len_small(scenario_stage(index + 1).1 as nat);
    }
}

/// The ending script is at most 100 characters long.
pub proof fn lemma_ending_txt_len()
    ensures
        ending_txt().len() <= 100,
{
    reveal_strlit("#\nLabel:Start\n\nPlayBgm:data/bgm/sr.ogg\nCongratulations!\\\n\nEnd:\n");
}

fn scenario_stage_entry(i: i32) -> (r: (&'static str, u32, u32))
    requires
        0 <= i < STAGE_COUNT,
    ensures
        r.0@ == scenario_stage(i as int).0,
        r.1 == scenario_stage(i as int).1,
        r.2 == scenario_stage(i as int).2,
{
    match i {
        0 => ("reimu", 0, 10),
        1 => ("marisa", 11, 11),
        2 => ("sakuya", 12, 12),
        3 => ("alice", 13, 13),
        4 => ("patchouli", 14, 15),
        5 => ("youmu", 15, 14),
        6 => ("remilia", 16, 17),
        7 => ("yuyuko", 17, 16),
        8 => ("yukari", 10, 18),
        9 => ("suika", 5, 19),
        10 => ("udonge", 18, 20),
        11 => ("aya", 3, 21),
        12 => ("komachi", 2, 22),
        13 => ("iku", 4, 4),
        _ => ("tenshi", 5, 5),
    }
}

/// The script of stage `index` for the player's character `player`; see
/// [`scenario_txt`].
pub fn build_scenario_txt(player: &str, index: i32) -> (txt: String)
    requires
        0 <= index < STAGE_COUNT,
    ensures
        txt@ == scenario_txt(player@, index as int),
        index < STAGE_COUNT - 1 ==> ends_with(
            txt@,
            ",113\nEnd:\n\nLabel:Win\n\nAction:right,200\nAction:left,202\n\n"@
                + "\nFadeBgm:2000,0\nStage:"@ + decimal(scenario_stage(index + 1).1 as nat)
                + ",120\nAction:right,201\nAction:left,150\nAction:left,4\nSleep:120;\n"@
                + "\nEnd:\n"@,
        ),
        index == STAGE_COUNT - 1 ==> ends_with(
            txt@,
            ",113\nEnd:\n\nLabel:Win\n\nAction:right,200\nAction:left,202\n\n"@ + "\nEnd:\n"@,
        ),
        ends_with(
            txt@,
            "Action:right,101\nAction:right,102\n"@ + (if index == 9 {
                "Action:right,107"@
            } else {
                ""@
            }) + "\nAction:left,3\nEnd:\n\nLabel:Continue\nAction:"@ + (if player@ == "remilia"@ {
                "left"@
            } else {
                "right"@
            }) + ",113\nEnd:\n\nLabel:Win\n\nAction:right,200\nAction:left,202\n\n"@
                + next_stage_script(index as int) + "\nEnd:\n"@,
        ),
{
    proof {
        lemma_stage_moves_to_next(player@, index as int);
        lemma_suika_action_only_on_her_stage(player@, index as int);
    }
    let current = scenario_stage_entry(index);
    let remilia = same_text(player, "remilia");
    proof {
        reveal_strlit("");
    }
    let mut txt = String::new();
    txt.append("\nCharacter:left,160,0,0,8888FF\nCharacter:right,160,0,1,FF8888\n\n");
    if index == 0 {
        txt.append("\nStage:");
        push_decimal(&mut txt, current.1);
        txt.append(",0\n");
        txt.append(if remilia { "Action:left,103" } else { "" });
        txt.append("\n");
    }
    txt.append("\n");
    txt.append(if remilia { "" } else { "Action:right,103" });
    txt.append("\nAction:right,100\nAction:left,4\nAction:left,152\n\nLabel:Start\nPlayBgm:data/bgm/st");
    push_zero_padded(&mut txt, current.2, 2);
    txt.append(".ogg\nAction:left,2\n\nSleep:60;\nAction:right,101\nAction:right,102\n");
    txt.append(if same_text(current.0, "suika") { "Action:right,107" } else { "" });
    txt.append("\nAction:left,3\nEnd:\n\nLabel:Continue\nAction:");
    txt.append(if remilia { "left" } else { "right" });
    txt.append(",113\nEnd:\n\nLabel:Win\n\nAction:right,200\nAction:left,202\n\n");
    if index + 1 < STAGE_COUNT {
        let next = scenario_stage_entry(index + 1);
        txt.append("\nFadeBgm:2000,0\nStage:");
        push_decimal(&mut txt, next.1);
        txt.append(",120\nAction:right,201\nAction:left,150\nAction:left,4\nSleep:120;\n");
    }
    txt.append("\nEnd:\n");
    assert(txt@ =~= scenario_txt(player@, index as int));
    txt
}

/// The ending script; see [`ending_txt`].
pub fn build_ending_txt() -> (txt: &'static str)
    ensures
        txt@ == ending_txt(),
{
    "#\nLabel:Start\n\nPlayBgm:data/bgm/sr.ogg\nCongratulations!\\\n\nEnd:\n"
}

} // verus!
