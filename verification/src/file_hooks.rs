//! What the redirected loaders answer for a file that the game asks for:
//! the generated scenario and ending scripts and story table, or nothing, in
//! which case the game's own loader reads the file.

use vstd::prelude::*;
use crate::pattern::{capture_texts, regex_captures, regex_compiles, Pattern};
use crate::scenario_txt::{
    build_ending_txt,
    build_scenario_txt,
    ending_txt,
    lemma_ending_txt_len,
    lemma_scenario_txt_len,
    scenario_txt,
    STAGE_COUNT,
};
use crate::shift_jis::{encodable, shift_jis_decode, shift_jis_decoded, shift_jis_encode, shift_jis_encoded};
use crate::story_csv::{build_story_csv, lemma_story_csv_len, story_csv};
use crate::text::{decimal, lemma_parse_decimal, parse_i32, parsed_i32};

verus! {

/// Scenario scripts: the player's character and the stage number.
pub const SCENARIO_PATTERN: &'static str = "data/scenario/(.+)/(\\d+)\\.txt";

/// The ending script.
pub const ENDING_PATTERN: &'static str = "data/scenario/.+/ed\\.txt";

/// The story table.
pub const STORY_PATTERN: &'static str = "data/csv/.+/story.csv";

/// Why a request cannot be answered; the game's process stops on each.
#[derive(Debug, PartialEq, Eq, Structural)]
pub enum LoadError {
    /// A file name pattern does not compile.
    BadPattern,
    /// A capture group that the scenario pattern names took no part in the
    /// match.
    MissingGroup,
    /// The stage of a scenario file is not a number that fits `i32`.
    BadStageNumber,
    /// The stage of a scenario file is not one of the stages.
    StageOutOfRange,
}

/// The text of capture group `i`, if the group exists and took part.
pub open spec fn group(groups: Seq<Option<Seq<char>>>, i: int) -> Option<Seq<char>> {
    if 0 <= i < groups.len() {
        groups[i]
    } else {
        None
    }
}

/// The answer to a scenario text request, from the scenario pattern's
/// captures (`None` for no match) and whether the ending pattern matched:
/// the script of the captured stage for the captured character, the ending
/// script, or `None` to let the game read the file.
pub open spec fn txt_answer(
    scenario: Option<Seq<Option<Seq<char>>>>,
    ending: bool,
) -> Result<Option<Seq<char>>, LoadError> {
    match scenario {
        Some(groups) => match (group(groups, 1), group(groups, 2)) {
            (Some(player), Some(stage)) => match parsed_i32(stage) {
                Some(index) => if 0 <= index < STAGE_COUNT {
                    Ok(Some(scenario_txt(player, index)))
                } else {
                    Err(LoadError::StageOutOfRange)
                },
                None => Err(LoadError::BadStageNumber),
            },
            _ => Err(LoadError::MissingGroup),
        },
        None => if ending {
            Ok(Some(ending_txt()))
        } else {
            Ok(None)
        },
    }
}

/// A request whose scenario match captures a character and a stage number
/// written as a numeral is answered with that stage's script for that
/// character when the stage exists, and refused as out of range when it
/// does not.
pub proof fn lemma_stage_request(
    whole: Seq<char>,
    player: Seq<char>,
    index: nat,
    ending: bool,
)
    requires
        index <= i32::MAX,
    ensures
        txt_answer(Some(seq![Some(whole), Some(player), Some(decimal(index))]), ending) == if index
            < STAGE_COUNT {
            Ok::<Option<Seq<char>>, LoadError>(Some(scenario_txt(player, index as int)))
        } else {
            Err::<Option<Seq<char>>, LoadError>(LoadError::StageOutOfRange)
        },
{
    lemma_parse_decimal(index);
}

fn group_text(groups: &Vec<Option<String>>, i: usize) -> (text: Option<&String>)
    ensures
        text matches Some(t) ==> group(capture_texts(Some(*groups))->0, i as int) == Some(t@),
        text is None ==> group(capture_texts(Some(*groups))->0, i as int) is None,
{
    if i < groups.len() {
        match &groups[i] {
            Some(t) => Some(t),
            None => None,
        }
    } else {
        None
    }
}

/// Answers a scenario text request from the scenario pattern's captures and
/// whether the ending pattern matched; see [`txt_answer`].
pub fn answer_txt(scenario: Option<Vec<Option<String>>>, ending: bool) -> (answer: Result<
    Option<String>,
    LoadError,
>)
    ensures
        match answer {
            Ok(Some(text)) => txt_answer(capture_texts(scenario), ending) == Ok::<
                Option<Seq<char>>,
                LoadError,
            >(Some(text@)),
            Ok(None) => txt_answer(capture_texts(scenario), ending) == Ok::<
                Option<Seq<char>>,
                LoadError,
            >(None),
            Err(e) => txt_answer(capture_texts(scenario), ending) == Err::<
                Option<Seq<char>>,
                LoadError,
            >(e),
        },
{
    match scenario {
        Some(groups) => {
            let player = group_text(&groups, 1);
            let stage = group_text(&groups, 2);
            match (player, stage) {
                (Some(player), Some(stage)) => match parse_i32(stage.as_str()) {
                    Some(index) => if 0 <= index && index < STAGE_COUNT {
                        Ok(Some(build_scenario_txt(player.as_str(), index)))
                    } else {
                        Err(LoadError::StageOutOfRange)
                    },
                    None => Err(LoadError::BadStageNumber),
                },
                _ => Err(LoadError::MissingGroup),
            }
        },
        None => if ending {
            Ok(Some(build_ending_txt().to_owned()))
        } else {
            Ok(None)
        },
    }
}


/// The bytes of an answer.
pub open spec fn answer_bytes(answer: Result<Option<Vec<u8>>, LoadError>) -> Result<Option<Seq<u8>>, LoadError> {
    match answer {
        Ok(Some(bytes)) => Ok(Some(bytes@)),
        Ok(None) => Ok(None),
        Err(e) => Err(e),
    }
}

/// A text answer, encoded in Shift_JIS.
pub open spec fn encoded(answer: Result<Option<Seq<char>>, LoadError>) -> Result<Option<Seq<u8>>, LoadError> {
    match answer {
        Ok(Some(text)) => Ok(Some(shift_jis_encoded(text))),
        Ok(None) => Ok(None),
        Err(e) => Err(e),
    }
}

/// The answer to a request for the scenario text file named by the
/// Shift_JIS bytes `file_name`: the file name is decoded, matched against
/// the scenario pattern and, when that finds nothing, against the ending
/// pattern; a generated script is answered in Shift_JIS.
pub open spec fn txt_request_answer(file_name: Seq<u8>) -> Result<Option<Seq<u8>>, LoadError> {
    let name = shift_jis_decoded(file_name);
    if !regex_compiles(SCENARIO_PATTERN@) {
        Err(LoadError::BadPattern)
    } else {
        let scenario = regex_captures(SCENARIO_PATTERN@, name);
        if scenario is None && !regex_compiles(ENDING_PATTERN@) {
            Err(LoadError::BadPattern)
        } else {
            let ending = scenario is None && regex_captures(ENDING_PATTERN@, name) is Some;
            encoded(txt_answer(scenario, ending))
        }
    }
}

/// The answer to a request for the table file named by the Shift_JIS bytes
/// `file_name`: the story table, in Shift_JIS, when the name matches the
/// story pattern.
pub open spec fn csv_request_answer(file_name: Seq<u8>) -> Result<Option<Seq<u8>>, LoadError> {
    let name = shift_jis_decoded(file_name);
    if !regex_compiles(STORY_PATTERN@) {
        Err(LoadError::BadPattern)
    } else if regex_captures(STORY_PATTERN@, name) is Some {
        Ok(Some(shift_jis_encoded(story_csv())))
    } else {
        Ok(None)
    }
}

/// Every table request whose whole decoded file name the story pattern
/// matches, however long the name, is answered with the story table in
/// Shift_JIS; every other request goes to the game's own loader.
pub proof fn lemma_story_request(file_name: Seq<u8>)
    ensures
        regex_compiles(STORY_PATTERN@) && regex_captures(STORY_PATTERN@, shift_jis_decoded(file_name)) is Some
            ==> csv_request_answer(file_name) == Ok::<Option<Seq<u8>>, LoadError>(Some(shift_jis_encoded(story_csv()))),
        regex_compiles(STORY_PATTERN@) && regex_captures(STORY_PATTERN@, shift_jis_decoded(file_name)) is None
            ==> csv_request_answer(file_name) == Ok::<Option<Seq<u8>>, LoadError>(None),
        !regex_compiles(STORY_PATTERN@) ==> csv_request_answer(file_name) == Err::<Option<Seq<u8>>, LoadError>(LoadError::BadPattern),
{
}

/// A scenario text request is decided on its whole decoded file name: when
/// the scenario pattern captures a character and a stage number written as
/// a numeral of an existing stage, the answer is that stage's script for that
/// character, in Shift_JIS; when neither the scenario nor the ending pattern
/// matches, the request goes to the game's own loader.
pub proof fn lemma_scenario_request(file_name: Seq<u8>, whole: Seq<char>, player: Seq<char>, index: nat)
    requires
        regex_compiles(SCENARIO_PATTERN@),
    ensures
        regex_captures(SCENARIO_PATTERN@, shift_jis_decoded(file_name)) == Some(
            seq![Some(whole), Some(player), Some(decimal(index))],
        ) && index < STAGE_COUNT ==> txt_request_answer(file_name) == Ok::<Option<Seq<u8>>, LoadError>(
            Some(shift_jis_encoded(scenario_txt(player, index as int))),
        ),
        regex_captures(SCENARIO_PATTERN@, shift_jis_decoded(file_name)) is None && regex_compiles(
            ENDING_PATTERN@,
        ) && regex_captures(ENDING_PATTERN@, shift_jis_decoded(file_name)) is None
            ==> txt_request_answer(file_name) == Ok::<Option<Seq<u8>>, LoadError>(None),
{
    if index < STAGE_COUNT {
        lemma_stage_request(whole, player, index, false);
    }
}

/// Encodes a generated text answer in Shift_JIS.
fn encode_answer(answer: Result<Option<String>, LoadError>) -> (bytes: Result<Option<Vec<u8>>, LoadError>)
    requires
        answer matches Ok(Some(text)) ==> encodable(text@),
    ensures
        answer_bytes(bytes) == encoded(match answer {
            Ok(Some(text)) => Ok(Some(text@)),
            Ok(None) => Ok(None),
            Err(e) => Err(e),
        }),
{
    match answer {
        Ok(Some(text)) => Ok(Some(shift_jis_encode(text.as_str()))),
        Ok(None) => Ok(None),
        Err(e) => Err(e),
    }
}

/// Answers a request for the scenario text file named by the Shift_JIS
/// bytes `file_name`; see [`txt_request_answer`]. `Ok(None)` sends the
/// request on to the game's own loader.
pub fn answer_txt_request(file_name: &[u8]) -> (answer: Result<Option<Vec<u8>>, LoadError>)
    requires
        file_name@.len() <= usize::MAX / 8,
    ensures
        answer_bytes(answer) == txt_request_answer(file_name@),
{
    let name = shift_jis_decode(file_name);
    let scenario_pattern = match Pattern::new(SCENARIO_PATTERN) {
        Ok(p) => p,
        Err(_) => return Err(LoadError::BadPattern),
    };
    let scenario = scenario_pattern.captures(name.as_str());
    let ending = if scenario.is_none() {
        let ending_pattern = match Pattern::new(ENDING_PATTERN) {
            Ok(p) => p,
            Err(_) => return Err(LoadError::BadPattern),
        };
        ending_pattern.is_match(name.as_str())
    } else {
        false
    };
    let text = answer_txt(scenario, ending);
    proof {
        if text matches Ok(Some(_)) {
                match capture_texts(scenario) {
                    Some(groups) => {
                        let index = parsed_i32(group(groups, 2)->0)->0;
                        lemma_scenario_txt_len(group(groups, 1)->0, index);
                    },
                    None => {
                        lemma_ending_txt_len();
                    },
                }
        }
    }
    encode_answer(text)
}

/// Answers a request for the table file named by the Shift_JIS bytes
/// `file_name`; see [`csv_request_answer`]. `Ok(None)` sends the request on
/// to the game's own loader.
pub fn answer_csv_request(file_name: &[u8]) -> (answer: Result<Option<Vec<u8>>, LoadError>)
    requires
        file_name@.len() <= usize::MAX / 8,
    ensures
        answer_bytes(answer) == csv_request_answer(file_name@),
        regex_compiles(STORY_PATTERN@) && regex_captures(STORY_PATTERN@, shift_jis_decoded(file_name@)) is Some
            ==> answer_bytes(answer) == Ok::<Option<Seq<u8>>, LoadError>(Some(shift_jis_encoded(story_csv()))),
        regex_compiles(STORY_PATTERN@) && regex_captures(STORY_PATTERN@, shift_jis_decoded(file_name@)) is None
            ==> answer_bytes(answer) == Ok::<Option<Seq<u8>>, LoadError>(None),
        !regex_compiles(STORY_PATTERN@) ==> answer_bytes(answer) == Err::<Option<Seq<u8>>, LoadError>(LoadError::BadPattern),
{
    proof {
        lemma_story_request(file_name@);
    }
    let name = shift_jis_decode(file_name);
    let story_pattern = match Pattern::new(STORY_PATTERN) {
        Ok(p) => p,
        Err(_) => return Err(LoadError::BadPattern),
    };
    let matched = story_pattern.is_match(name.as_str());
    answer_csv(matched)
}

/// The answer to a table request, from whether the story pattern matched:
/// the story table in Shift_JIS, or `None` to let the game read the file.
pub fn answer_csv(matched: bool) -> (answer: Result<Option<Vec<u8>>, LoadError>)
    ensures
        answer_bytes(answer) == (if matched {
            Ok::<Option<Seq<u8>>, LoadError>(Some(shift_jis_encoded(story_csv())))
        } else {
            Ok::<Option<Seq<u8>>, LoadError>(None)
        }),
{
    if matched {
        let csv = build_story_csv();
        proof {
            lemma_story_csv_len();
        }
        Ok(Some(shift_jis_encode(csv.as_str())))
    } else {
        Ok(None)
    }
}

} // verus!
