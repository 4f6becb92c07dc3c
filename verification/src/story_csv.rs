//! The story table (`story.csv`) of the survival mode: one block per
//! character, in story order, each giving the stage, the enemy, the number of
//! battles and of spell cards, then one line per battle.

use vstd::prelude::*;
use vstd::string::StringExecFns;
use crate::text::{decimal, decimal_string, join, joined, lemma_decimal_len_small, lemma_joined_len, lemma_signed_decimal_len, push_decimal, push_signed_decimal, same_text, signed_decimal, texts};

verus! {

/// Number of characters in the survival story.
pub const STORY_LENGTH: u32 = 15;

/// Number of battles fought against a character with `num_spells` spell
/// cards (1 to 5).
pub open spec fn battles(num_spells: int) -> int {
    if num_spells == 1 {
        1
    } else if num_spells == 2 {
        3
    } else if num_spells == 3 {
        4
    } else if num_spells == 4 {
        6
    } else {
        7
    }
}

/// The battles against a character: for each, the spell card number (`-1`
/// for a battle without a spell card) and whether it is a finishing battle.
/// "tenshi" always has the full plan; every other character has the plan
/// of its number of spell cards (1 to 5).
pub open spec fn spell_plan(name: Seq<char>, num_spells: int) -> Seq<(int, bool)> {
    if name == "tenshi"@ {
        seq![(-1, false), (0, false), (1, false), (-1, false), (2, false), (3, true), (4, true)]
    } else if num_spells == 1 {
        seq![(0, true)]
    } else if num_spells == 2 {
        seq![(-1, false), (0, false), (1, true)]
    } else if num_spells == 3 {
        seq![(-1, false), (0, false), (1, false), (2, true)]
    } else if num_spells == 4 {
        seq![(-1, false), (0, false), (1, false), (-1, false), (2, false), (3, true)]
    } else {
        seq![(-1, false), (0, false), (1, false), (-1, false), (2, false), (3, false), (4, true)]
    }
}

/// The spell card numbers of a plan, in battle order, leaving out the battles
/// without a spell card.
pub open spec fn spell_numbers(plan: Seq<(int, bool)>) -> Seq<int>
    decreases plan.len(),
{
    if plan.len() == 0 {
        Seq::empty()
    } else if plan.last().0 >= 0 {
        spell_numbers(plan.drop_last()).push(plan.last().0)
    } else {
        spell_numbers(plan.drop_last())
    }
}

/// A character's plan has exactly as many battles as its header announces,
/// its spell cards are numbered 0, 1, ... up to the announced number of spell
/// cards, in battle order, and its last battle is a finishing one.
pub proof fn lemma_spell_plan_matches_header(name: Seq<char>, num_spells: int)
    requires
        1 <= num_spells <= 5,
        name == "tenshi"@ ==> num_spells == 5,
    ensures
        spell_plan(name, num_spells).len() == battles(num_spells),
        spell_numbers(spell_plan(name, num_spells)) == Seq::new(num_spells as nat, |i: int| i),
        spell_plan(name, num_spells).last().1,
{
    let plan = spell_plan(name, num_spells);
    reveal_with_fuel(spell_numbers, 8);
    if name == "tenshi"@ {
        assert(spell_numbers(plan) =~= Seq::new(5, |i: int| i));
    } else if num_spells == 1 {
        assert(spell_numbers(plan) =~= Seq::new(1, |i: int| i));
    } else if num_spells == 2 {
        assert(spell_numbers(plan) =~= Seq::new(2, |i: int| i));
    } else if num_spells == 3 {
        assert(spell_numbers(plan) =~= Seq::new(3, |i: int| i));
    } else if num_spells == 4 {
        assert(spell_numbers(plan) =~= Seq::new(4, |i: int| i));
    } else {
        assert(spell_numbers(plan) =~= Seq::new(5, |i: int| i));
    }
}

/// Tenshi's block lists the same seven battles whatever number of spell
/// cards is announced for her; her header's battle count (and spell card
/// count) matches those seven battles only when five spell cards are
/// announced.
pub proof fn lemma_tenshi_block_fixed(stage: int, num_spells: int, other: int)
    requires
        1 <= num_spells <= 5,
        1 <= other <= 5,
    ensures
        char_lines(stage, "tenshi"@, num_spells).subrange(1, 8) == char_lines(
            stage,
            "tenshi"@,
            other,
        ).subrange(1, 8),
        char_lines(stage, "tenshi"@, num_spells).len() == 8,
        spell_plan("tenshi"@, num_spells) == spell_plan("tenshi"@, other),
        (battles(num_spells) == spell_plan("tenshi"@, num_spells).len()) <==> num_spells == 5,
{
    let a = char_lines(stage, "tenshi"@, num_spells);
    let b = char_lines(stage, "tenshi"@, other);
    assert(a.subrange(1, 8) =~= b.subrange(1, 8));
}

/// Every character of the story has one to five spell cards, and only the
/// last one, Tenshi, has her own plan, with five spell cards: so every block
/// announces as many battles and spell cards as it lists.
pub proof fn lemma_story_blocks_match_headers(i: int)
    requires
        0 <= i < STORY_LENGTH,
    ensures
        1 <= story_character(i).1 <= 5,
        spell_plan(story_character(i).0, story_character(i).1).len() == battles(story_character(i).1),
        spell_numbers(spell_plan(story_character(i).0, story_character(i).1)) == Seq::new(
            story_character(i).1 as nat,
            |k: int| k,
        ),
{
    reveal_strlit("reimu");
    reveal_strlit("marisa");
    reveal_strlit("sakuya");
    reveal_strlit("alice");
    reveal_strlit("patchouli");
    reveal_strlit("youmu");
    reveal_strlit("remilia");
    reveal_strlit("yuyuko");
    reveal_strlit("yukari");
    reveal_strlit("suika");
    reveal_strlit("udonge");
    reveal_strlit("aya");
    reveal_strlit("komachi");
    reveal_strlit("iku");
    reveal_strlit("tenshi");
    let c = story_character(i);
    if i < 14 {
        assert(c.0[0] != "tenshi"@[0]);
    }
    lemma_spell_plan_matches_header(c.0, c.1);
}

/// One battle line: the spell card ids for the easy, normal, hard and
/// lunatic difficulties (`4 * number + difficulty`) and the finish marker
/// (`2` for a finishing battle, `1` otherwise); a battle without a spell card
/// (negative number) has the fixed line `248,248,248,248,0`.
pub open spec fn spell_line(number: int, finish: bool) -> Seq<char> {
    if number < 0 {
        "248,248,248,248,0"@
    } else {
        signed_decimal(number * 4) + ","@ + signed_decimal(number * 4 + 1) + ","@
            + signed_decimal(number * 4 + 2) + ","@ + signed_decimal(number * 4 + 3) + ","@
            + (if finish { "2"@ } else { "1"@ })
    }
}

/// The header line of a character's block: stage, enemy, number of battles
/// and number of spell cards minus one.
pub open spec fn char_header(stage: int, name: Seq<char>, num_spells: int) -> Seq<char> {
    signed_decimal(stage) + ","@ + name + ","@ + decimal(battles(num_spells) as nat) + ","@
        + signed_decimal(num_spells - 1)
}

/// The lines of a character's block: its header, then one line per battle.
pub open spec fn char_lines(stage: int, name: Seq<char>, num_spells: int) -> Seq<Seq<char>> {
    seq![char_header(stage, name, num_spells)] + spell_plan(name, num_spells).map_values(
        |b: (int, bool)| spell_line(b.0, b.1),
    )
}

/// The characters of the story, in order: name and number of spell cards.
pub open spec fn story_character(i: int) -> (Seq<char>, int) {
    if i == 0 {
        ("reimu"@, 5)
    } else if i == 1 {
        ("marisa"@, 3)
    } else if i == 2 {
        ("sakuya"@, 4)
    } else if i == 3 {
        ("alice"@, 3)
    } else if i == 4 {
        ("patchouli"@, 3)
    } else if i == 5 {
        ("youmu"@, 4)
    } else if i == 6 {
        ("remilia"@, 4)
    } else if i == 7 {
        ("yuyuko"@, 3)
    } else if i == 8 {
        ("yukari"@, 5)
    } else if i == 9 {
        ("suika"@, 5)
    } else if i == 10 {
        ("udonge"@, 3)
    } else if i == 11 {
        ("aya"@, 4)
    } else if i == 12 {
        ("komachi"@, 3)
    } else if i == 13 {
        ("iku"@, 4)
    } else {
        ("tenshi"@, 5)
    }
}

/// The lines of the story table up to (not including) character `k`: the
/// number of characters, then the block of each character.
pub open spec fn story_lines(k: nat) -> Seq<Seq<char>>
    decreases k,
{
    if k == 0 {
        seq![decimal(STORY_LENGTH as nat)]
    } else {
        let c = story_character(k - 1);
        story_lines((k - 1) as nat) + char_lines(k - 1, c.0, c.1)
    }
}

/// The whole story table: all its lines, each ended by a newline.
pub open spec fn story_csv() -> Seq<char> {
    joined(story_lines(STORY_LENGTH as nat), "\n"@) + "\n"@
}

/// Every line of a character block of the story is at most fifty
/// characters long, and a block has at most eight lines.
proof fn lemma_char_lines_len(stage: int, name: Seq<char>, num_spells: int)
    requires
        0 <= stage < 100,
        name.len() <= 20,
        1 <= num_spells <= 5,
    ensures
        char_lines(stage, name, num_spells).len() <= 8,
        forall|i: int|
            0 <= i < char_lines(stage, name, num_spells).len() ==> #[trigger] char_lines(
                stage,
                name,
                num_spells,
            )[i].len() <= 50,
{
    reveal_strlit(",");
    reveal_strlit("1");
    reveal_strlit("2");
    reveal_strlit("248,248,248,248,0");
    reveal_strlit("tenshi");
    let lines = char_lines(stage, name, num_spells);
    let plan = spell_plan(name, num_spells);
    lemma_signed_decimal_len(stage);
    lemma_signed_decimal_len(num_spells - 1);
    lemma_decimal_len_small(battles(num_spells) as nat);
    assert forall|i: int| 0 <= i < lines.len() implies #[trigger] lines[i].len() <= 50 by {
        if i > 0 {
            let b = plan[i - 1];
            assert(lines[i] == spell_line(b.0, b.1));
            assert(-1 <= b.0 <= 4);
            if b.0 >= 0 {
                lemma_signed_decimal_len(b.0 * 4);
                lemma_signed_decimal_len(b.0 * 4 + 1);
                lemma_signed_decimal_len(b.0 * 4 + 2);
                lemma_signed_decimal_len(b.0 * 4 + 3);
            }
        }
    }
}

/// The lines of the story table up to character `k` are at most fifty
/// characters long, and there are at most `1 + 8 k` of them.
proof fn lemma_story_lines_len(k: nat)
    requires
        k <= STORY_LENGTH,
    ensures
        story_lines(k).len() <= 1 + 8 * k,
        forall|i: int| 0 <= i < story_lines(k).len() ==> #[trigger] story_lines(k)[i].len() <= 50,
    decreases k,
{
    if k == 0 {
        lemma_decimal_len_small(STORY_LENGTH as nat);
    } else {
        let prev = story_lines((k - 1) as nat);
        let c = story_character(k - 1);
        lemma_story_lines_len((k - 1) as nat);
        reveal_strlit("reimu");
        reveal_strlit("marisa");
        reveal_strlit("sakuya");
        reveal_strlit("alice");
        reveal_strlit("patchouli");
        reveal_strlit("youmu");
        reveal_strlit("remilia");
        reveal_strlit("yuyuko");
        reveal_strlit("yukari");
        reveal_strlit("suika");
        reveal_strlit("udonge");
        reveal_strlit("aya");
        reveal_strlit("komachi");
        reveal_strlit("iku");
        reveal_strlit("tenshi");
        assert(c.0.len() <= 20);
        lemma_char_lines_len(k - 1, c.0, c.1);
        let block = char_lines(k - 1, c.0, c.1);
        assert forall|i: int| 0 <= i < story_lines(k).len() implies #[trigger] story_lines(k)[i].len() <= 50 by {
            if i < prev.len() {
                assert(story_lines(k)[i] == prev[i]);
            } else {
                assert(story_lines(k)[i] == block[i - prev.len()]);
            }
        }
    }
}

/// The story table is at most 7000 characters long.
pub proof fn lemma_story_csv_len()
    ensures
        story_csv().len() <= 7000,
{
    reveal_strlit("\n");
    lemma_story_lines_len(STORY_LENGTH as nat);
    let lines = story_lines(STORY_LENGTH as nat);
    lemma_joined_len(lines, "\n"@, 50);
    let n = lines.len() as int;
    assert(n * 51 <= 121 * 51) by (nonlinear_arith)
        requires
            0 <= n <= 121,
    ;
}

fn story_character_entry(i: u32) -> (r: (&'static str, i32))
    requires
        i < STORY_LENGTH,
    ensures
        r.0@ == story_character(i as int).0,
        r.1 == story_character(i as int).1,
{
    match i {
        0 => ("reimu", 5),
        1 => ("marisa", 3),
        2 => ("sakuya", 4),
        3 => ("alice", 3),
        4 => ("patchouli", 3),
        5 => ("youmu", 4),
        6 => ("remilia", 4),
        7 => ("yuyuko", 3),
        8 => ("yukari", 5),
        9 => ("suika", 5),
        10 => ("udonge", 3),
        11 => ("aya", 4),
        12 => ("komachi", 3),
        13 => ("iku", 4),
        _ => ("tenshi", 5),
    }
}

/// The battle line of spell card `number`; see [`spell_line`].
fn build_spell(number: i32, finish: bool) -> (s: String)
    requires
        number < 0 || number * 4 + 3 <= i32::MAX,
    ensures
        s@ == spell_line(number as int, finish),
{
    if number < 0 {
        let s = String::from_str("248,248,248,248,0");
        return s;
    }
    let spell_idx = number * 4;
    let mut s = String::new();
    push_signed_decimal(&mut s, spell_idx);
    s.append(",");
    push_signed_decimal(&mut s, spell_idx + 1);
    s.append(",");
    push_signed_decimal(&mut s, spell_idx + 2);
    s.append(",");
    push_signed_decimal(&mut s, spell_idx + 3);
    s.append(",");
    s.append(if finish { "2" } else { "1" });
    assert(s@ =~= spell_line(number as int, finish));
    s
}

fn spell_plan_entries(name: &str, num_spells: i32) -> (v: Vec<(i32, bool)>)
    requires
        1 <= num_spells <= 5,
    ensures
        v@.len() == spell_plan(name@, num_spells as int).len(),
        forall|j: int|
            0 <= j < v@.len() ==> (v@[j].0 as int, v@[j].1) == #[trigger] spell_plan(
                name@,
                num_spells as int,
            )[j],
{
    if same_text(name, "tenshi") {
        vec![(-1, false), (0, false), (1, false), (-1, false), (2, false), (3, true), (4, true)]
    } else {
        match num_spells {
            1 => vec![(0, true)],
            2 => vec![(-1, false), (0, false), (1, true)],
            3 => vec![(-1, false), (0, false), (1, false), (2, true)],
            4 => vec![(-1, false), (0, false), (1, false), (-1, false), (2, false), (3, true)],
            _ => vec![
                (-1, false),
                (0, false),
                (1, false),
                (-1, false),
                (2, false),
                (3, false),
                (4, true),
            ],
        }
    }
}

/// The lines of a character's block; see [`char_lines`].
fn build_char(stage: i32, name: &str, num_spells: i32) -> (lines: Vec<String>)
    requires
        1 <= num_spells <= 5,
    ensures
        texts(lines@) == char_lines(stage as int, name@, num_spells as int),
{
    let battle_count: u32 = match num_spells {
        1 => 1,
        2 => 3,
        3 => 4,
        4 => 6,
        _ => 7,
    };
    let mut header = String::new();
    push_signed_decimal(&mut header, stage);
    header.append(",");
    header.append(name);
    header.append(",");
    push_decimal(&mut header, battle_count);
    header.append(",");
    push_signed_decimal(&mut header, num_spells - 1);
    assert(header@ =~= char_header(stage as int, name@, num_spells as int));

    let plan = spell_plan_entries(name, num_spells);
    let ghost spec_plan = spell_plan(name@, num_spells as int);
    let mut lines: Vec<String> = Vec::new();
    lines.push(header);
    let mut j: usize = 0;
    while j < plan.len()
        invariant
            j <= plan.len(),
            spec_plan == spell_plan(name@, num_spells as int),
            plan@.len() == spec_plan.len(),
            forall|k: int| 0 <= k < plan@.len() ==> (plan@[k].0 as int, plan@[k].1) == #[trigger] spec_plan[k],
            texts(lines@) == char_lines(stage as int, name@, num_spells as int).take(j + 1),
        decreases plan.len() - j,
    {
        let (number, finish) = plan[j];
        assert(spec_plan[j as int] == (number as int, finish));
        assert(number <= 4);
        let line = build_spell(number, finish);
        let ghost before = lines@;
        lines.push(line);
        proof {
            let target = char_lines(stage as int, name@, num_spells as int);
            assert(target[j + 1] == spell_line(number as int, finish));
            assert(texts(lines@) =~= texts(before).push(line@));
            assert(target.take(j + 2) =~= target.take(j + 1).push(target[j + 1]));
        }
        j = j + 1;
    }
    proof {
        let target = char_lines(stage as int, name@, num_spells as int);
        assert(target.take(plan.len() + 1) =~= target);
    }
    lines
}

/// The story table of the survival mode; see [`story_csv`].
pub fn build_story_csv() -> (csv: String)
    ensures
        csv@ == story_csv(),
{
    let mut lines: Vec<String> = Vec::new();
    lines.push(decimal_string(STORY_LENGTH));
    assert(texts(lines@) =~= story_lines(0));
    let mut i: u32 = 0;
    while i < STORY_LENGTH
        invariant
            i <= STORY_LENGTH,
            texts(lines@) == story_lines(i as nat),
        decreases STORY_LENGTH - i,
    {
        let (name, num_spells) = story_character_entry(i);
        let mut block = build_char(i as i32, name, num_spells);
        let ghost before = lines@;
        let ghost block_lines = block@;
        lines.append(&mut block);
        assert(texts(lines@) =~= texts(before) + texts(block_lines));
        i = i + 1;
    }
    let mut csv = join(&lines, "\n");
    csv.append("\n");
    csv
}

} // verus!
