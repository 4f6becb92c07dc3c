//! The scenario selection screen: the key that switches the survival mode
//! on and off, the sound it plays, and the caption shown while the mode is
//! on.

use vstd::prelude::*;
use vstd::string::StringExecFns;

verus! {

/// The selection screen key that switches the survival mode.
pub const TOGGLE_KEY_PRESSED: u32 = 1;

/// The sound played when the survival mode is switched on (the option
/// sound).
pub const SOUND_SURVIVAL_ON: i32 = 0x30;

/// The sound played when the survival mode is switched off (the cancel
/// sound).
pub const SOUND_SURVIVAL_OFF: i32 = 0x29;

/// Width of the caption texture, in pixels.
pub const CAPTION_WIDTH: u32 = 320;

/// Height of the caption texture, in pixels.
pub const CAPTION_HEIGHT: u32 = 50;

/// What the selection screen does with the survival mode on one update.
#[derive(Debug, PartialEq, Eq, Structural, Clone, Copy)]
pub enum Toggle {
    /// Leave the mode as it is.
    Keep,
    /// Apply the patches and play the option sound.
    TurnOn,
    /// Remove the patches and play the cancel sound.
    TurnOff,
}

/// Whether the survival mode is on after an update with the key state
/// `key4`.
pub open spec fn active_after(active: bool, key4: u32) -> bool {
    if key4 == TOGGLE_KEY_PRESSED {
        !active
    } else {
        active
    }
}

/// What an update with the key state `key4` does: a press of the key
/// switches the mode, anything else leaves it.
pub fn toggle_on_update(active: bool, key4: u32) -> (t: Toggle)
    ensures
        key4 != TOGGLE_KEY_PRESSED ==> t == Toggle::Keep,
        key4 == TOGGLE_KEY_PRESSED && !active ==> t == Toggle::TurnOn,
        key4 == TOGGLE_KEY_PRESSED && active ==> t == Toggle::TurnOff,
        (t == Toggle::TurnOn) == (!active && active_after(active, key4)),
        (t == Toggle::TurnOff) == (active && !active_after(active, key4)),
{
    if key4 == TOGGLE_KEY_PRESSED {
        if !active {
            Toggle::TurnOn
        } else {
            Toggle::TurnOff
        }
    } else {
        Toggle::Keep
    }
}

/// The sound that a switch plays, if any.
pub fn toggle_sound(t: Toggle) -> (sound: Option<i32>)
    ensures
        sound == match t {
            Toggle::Keep => None,
            Toggle::TurnOn => Some(SOUND_SURVIVAL_ON),
            Toggle::TurnOff => Some(SOUND_SURVIVAL_OFF),
        },
{
    match t {
        Toggle::Keep => None,
        Toggle::TurnOn => Some(SOUND_SURVIVAL_ON),
        Toggle::TurnOff => Some(SOUND_SURVIVAL_OFF),
    }
}

/// Two presses of the key leave the survival mode as it was, and any other
/// key state never changes it.
pub proof fn lemma_toggle_twice(active: bool, key4: u32)
    ensures
        active_after(active_after(active, TOGGLE_KEY_PRESSED), TOGGLE_KEY_PRESSED) == active,
        key4 != TOGGLE_KEY_PRESSED ==> active_after(active, key4) == active,
{
}

/// The caption shown while the survival mode is on.
pub open spec fn caption(version: Seq<char>) -> Seq<char> {
    "Survival Mode v"@ + version
}

/// The caption shown while the survival mode is on, for the mod's version
/// `version`; see [`caption`].
pub fn survival_caption(version: &str) -> (text: String)
    ensures
        text@ == caption(version@),
        text@.len() == 15 + version@.len(),
        text@.subrange(0, 15) == "Survival Mode v"@,
        text@.subrange(15, text@.len() as int) == version@,
{
    proof {
        lemma_caption_keeps_version(version@);
    }
    let mut text = String::from_str("Survival Mode v");
    text.append(version);
    text
}

/// The caption is the fifteen characters "Survival Mode v" followed by the
/// whole version text, however long.
pub proof fn lemma_caption_keeps_version(version: Seq<char>)
    ensures
        caption(version).len() == 15 + version.len(),
        caption(version).subrange(0, 15) == "Survival Mode v"@,
        caption(version).subrange(15, caption(version).len() as int) == version,
{
    reveal_strlit("Survival Mode v");
    let c = caption(version);
    assert(c.subrange(0, 15) =~= "Survival Mode v"@);
    assert(c.subrange(15, c.len() as int) =~= version);
}

} // verus!
