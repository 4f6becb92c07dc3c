//! The survival mode switch: the seven patches that turn the game's story
//! mode into the survival mode, and the manager that holds them while the
//! mode is on.

use vstd::prelude::*;
use crate::tamperer::{jmp_sum, jmp_sum_fits, stored_operand, wrap32, Tamperer};


verus! {

/// The call to the game's scenario text loader that the survival mode
/// redirects.
pub const LOAD_TXT_CALL: u32 = 0x4059F3;

/// The call to the game's table loader that the survival mode redirects.
pub const LOAD_CSV_CALL: u32 = 0x40EB63;

/// The jump that skips saving the story clear.
pub const SAVE_CLEAR_JUMP: u32 = 0x42D62B;

/// The code that adds the cards won.
pub const ADD_CARDS_CODE: u32 = 0x43EA8C;

/// The call that saves the result.
pub const SAVE_RESULT_CALL: u32 = 0x43EB5B;

/// The jump that skips saving the replay of an interrupted story.
pub const SAVE_REPLAY_INTERRUPTED_JUMP: u32 = 0x43EE11;

/// The jump that skips saving the replay of a cleared story.
pub const SAVE_REPLAY_CLEAR_JUMP: u32 = 0x4433DF;

/// The big-endian bytes of a 16-bit value.
pub open spec fn be_bytes16(v: int) -> Seq<u8> {
    seq![((v / 0x100) % 0x100) as u8, (v % 0x100) as u8]
}

/// The big-endian bytes of a 64-bit value.
pub open spec fn be_bytes64(v: int) -> Seq<u8> {
    seq![
        ((v / 0x100_0000_0000_0000) % 0x100) as u8,
        ((v / 0x1_0000_0000_0000) % 0x100) as u8,
        ((v / 0x100_0000_0000) % 0x100) as u8,
        ((v / 0x1_0000_0000) % 0x100) as u8,
        ((v / 0x100_0000) % 0x100) as u8,
        ((v / 0x1_0000) % 0x100) as u8,
        ((v / 0x100) % 0x100) as u8,
        (v % 0x100) as u8,
    ]
}

/// The big-endian bytes of `v`, as `u16::to_be_bytes` gives them.
pub fn u16_to_be_bytes(v: u16) -> (bytes: Vec<u8>)
    ensures
        bytes@ == be_bytes16(v as int),
{
    let bytes = vec![((v / 0x100) % 0x100) as u8, (v % 0x100) as u8];
    assert(bytes@ =~= be_bytes16(v as int));
    bytes
}

/// The big-endian bytes of `v`, as `u64::to_be_bytes` gives them.
pub fn u64_to_be_bytes(v: u64) -> (bytes: Vec<u8>)
    ensures
        bytes@ == be_bytes64(v as int),
{
    let bytes = vec![
        ((v / 0x100_0000_0000_0000) % 0x100) as u8,
        ((v / 0x1_0000_0000_0000) % 0x100) as u8,
        ((v / 0x100_0000_0000) % 0x100) as u8,
        ((v / 0x1_0000_0000) % 0x100) as u8,
        ((v / 0x100_0000) % 0x100) as u8,
        ((v / 0x1_0000) % 0x100) as u8,
        ((v / 0x100) % 0x100) as u8,
        (v % 0x100) as u8,
    ];
    assert(bytes@ =~= be_bytes64(v as int));
    bytes
}

/// The plain byte patches of the survival mode, in the order they are
/// applied: the address and the bytes written there. Saving the clear and
/// both replays is skipped by turning their conditional jumps into `EB`
/// (jump short), winning cards is skipped by `90 E9` (a nop and a near
/// jump), and saving the result by five nops.
pub open spec fn survival_byte_patches() -> Seq<(u32, Seq<u8>)> {
    seq![
        (SAVE_CLEAR_JUMP, seq![0xEBu8]),
        (ADD_CARDS_CODE, be_bytes16(0x90E9)),
        (SAVE_RESULT_CALL, be_bytes64(0x9090909090).subrange(3, 8)),
        (SAVE_REPLAY_INTERRUPTED_JUMP, seq![0xEBu8]),
        (SAVE_REPLAY_CLEAR_JUMP, seq![0xEBu8]),
    ]
}

/// The byte patches of the survival mode; see [`survival_byte_patches`].
pub fn byte_patches() -> (patches: Vec<(u32, Vec<u8>)>)
    ensures
        patches@.len() == survival_byte_patches().len(),
        forall|i: int|
            0 <= i < patches@.len() ==> (#[trigger] patches@[i].0, patches@[i].1@)
                == survival_byte_patches()[i],
{
    let add_cards = u16_to_be_bytes(0x90E9);
    let wide = u64_to_be_bytes(0x9090909090);
    let mut save_result: Vec<u8> = Vec::new();
    let mut i: usize = 3;
    while i < 8
        invariant
            3 <= i <= 8,
            wide@ == be_bytes64(0x9090909090),
            save_result@ == wide@.subrange(3, i as int),
        decreases 8 - i,
    {
        save_result.push(wide[i]);
        assert(save_result@ =~= wide@.subrange(3, i + 1));
        i = i + 1;
    }
    let patches = vec![
        (SAVE_CLEAR_JUMP, vec![0xEBu8]),
        (ADD_CARDS_CODE, add_cards),
        (SAVE_RESULT_CALL, save_result),
        (SAVE_REPLAY_INTERRUPTED_JUMP, vec![0xEBu8]),
        (SAVE_REPLAY_CLEAR_JUMP, vec![0xEBu8]),
    ];
    proof {
        assert(patches@[0].1@ =~= seq![0xEBu8]);
        assert(patches@[3].1@ =~= seq![0xEBu8]);
        assert(patches@[4].1@ =~= seq![0xEBu8]);
    }
    patches
}

/// The byte patches write what their comments say: `EB` over the three
/// conditional jumps, `90 E9` over the card code and five `90` over the
/// result call.
pub proof fn lemma_byte_patch_contents()
    ensures
        survival_byte_patches()[1].1 == seq![0x90u8, 0xE9u8],
        survival_byte_patches()[2].1 == seq![0x90u8, 0x90u8, 0x90u8, 0x90u8, 0x90u8],
{
    assert(be_bytes16(0x90E9) =~= seq![0x90u8, 0xE9u8]);
    assert(be_bytes64(0x9090909090).subrange(3, 8) =~= seq![0x90u8, 0x90u8, 0x90u8, 0x90u8, 0x90u8]);
}

/// The seven patches of the survival mode, each the record of what it
/// overwrote.
pub struct SurvivalPatches {
    /// The redirected call to the scenario text loader.
    pub load_txt: Tamperer,
    /// The redirected call to the table loader.
    pub load_csv: Tamperer,
    /// The skipped save of the story clear.
    pub save_clear: Tamperer,
    /// The skipped gain of cards.
    pub add_cards: Tamperer,
    /// The skipped save of the result.
    pub save_result: Tamperer,
    /// The skipped replay save of an interrupted story.
    pub save_replay_interrupted: Tamperer,
    /// The skipped replay save of a cleared story.
    pub save_replay_clear: Tamperer,
}

/// The records of a set of patches, in the manager's slot order.
pub open spec fn patch_views(p: SurvivalPatches) -> Seq<(u32, Seq<u8>)> {
    seq![
        p.load_txt@,
        p.load_csv@,
        p.save_clear@,
        p.add_cards@,
        p.save_result@,
        p.save_replay_interrupted@,
        p.save_replay_clear@,
    ]
}

/// The record held in a slot, if any.
pub open spec fn slot_view(slot: Option<Tamperer>) -> Option<(u32, Seq<u8>)> {
    match slot {
        Some(t) => Some(t@),
        None => None,
    }
}

/// The records held in a list of slots, in order, skipping empty slots.
pub open spec fn held(slots: Seq<Option<(u32, Seq<u8>)>>) -> Seq<(u32, Seq<u8>)>
    decreases slots.len(),
{
    if slots.len() == 0 {
        Seq::empty()
    } else {
        match slots.last() {
            Some(t) => held(slots.drop_last()).push(t),
            None => held(slots.drop_last()),
        }
    }
}

/// The records of a list of patches.
pub open spec fn records(list: Seq<Tamperer>) -> Seq<(u32, Seq<u8>)> {
    list.map_values(|t: Tamperer| t@)
}

/// Seven empty slots.
pub open spec fn empty_slots() -> Seq<Option<(u32, Seq<u8>)>> {
    seq![None, None, None, None, None, None, None]
}

/// The slots filled with a set of patches.
pub open spec fn filled_slots(p: SurvivalPatches) -> Seq<Option<(u32, Seq<u8>)>> {
    patch_views(p).map_values(|t: (u32, Seq<u8>)| Some(t))
}

/// Holds the patches of the survival mode while it is on. The mode is on
/// exactly when the scenario loader is redirected.
pub struct SurvivalManager {
    tamperer_load_txt: Option<Tamperer>,
    tamperer_load_csv: Option<Tamperer>,
    tamperer_save_clear: Option<Tamperer>,
    tamperer_add_cards: Option<Tamperer>,
    tamperer_save_result: Option<Tamperer>,
    tamperer_save_replay_interrupted: Option<Tamperer>,
    tamperer_save_replay_clear: Option<Tamperer>,
}

proof fn lemma_held_single(x: Option<(u32, Seq<u8>)>)
    ensures
        held(seq![x]) == match x {
            Some(t) => seq![t],
            None => Seq::<(u32, Seq<u8>)>::empty(),
        },
{
    let s = seq![x];
    assert(s.drop_last() =~= Seq::<Option<(u32, Seq<u8>)>>::empty());
    assert(held(s.drop_last()) == Seq::<(u32, Seq<u8>)>::empty());
    match x {
        Some(t) => {
            assert(held(s) =~= seq![t]);
        },
        None => {},
    }
}

fn push_slot(list: &mut Vec<Tamperer>, slot: Option<Tamperer>)
    ensures
        records(final(list)@) == records(old(list)@) + held(seq![slot_view(slot)]),
{
    proof {
        lemma_held_single(slot_view(slot));
    }
    match slot {
        Some(t) => {
            list.push(t);
            assert(records(list@) =~= records(old(list)@) + held(seq![slot_view(Some(t))]));
        },
        None => {
            assert(records(list@) =~= records(old(list)@) + held(seq![slot_view(slot)]));
        },
    }
}

proof fn lemma_held_take_step(slots: Seq<Option<(u32, Seq<u8>)>>, k: int)
    requires
        0 <= k < slots.len(),
    ensures
        held(slots.take(k + 1)) == held(slots.take(k)) + held(seq![slots[k]]),
{
    assert(slots.take(k + 1).drop_last() =~= slots.take(k));
    assert(slots.take(k + 1).last() == slots[k]);
    lemma_held_single(slots[k]);
    assert(held(slots.take(k + 1)) =~= held(slots.take(k)) + held(seq![slots[k]]));
}

/// A list of filled slots holds exactly its records.
pub proof fn lemma_held_all_some(r: Seq<(u32, Seq<u8>)>)
    ensures
        held(r.map_values(|t: (u32, Seq<u8>)| Some(t))) == r,
    decreases r.len(),
{
    if r.len() > 0 {
        lemma_held_all_some(r.drop_last());
        assert(r.map_values(|t: (u32, Seq<u8>)| Some(t)).drop_last() =~= r.drop_last().map_values(
            |t: (u32, Seq<u8>)| Some(t),
        ));
    }
    assert(held(r.map_values(|t: (u32, Seq<u8>)| Some(t))) =~= r);
}

/// Turning the mode off right after turning it on hands back exactly the
/// patches that were taken, in slot order, so that all of them are written
/// back.
pub proof fn lemma_restore_returns_tampered(patches: SurvivalPatches)
    ensures
        held(filled_slots(patches)) == patch_views(patches),
        filled_slots(patches)[0] is Some,
{
    lemma_held_all_some(patch_views(patches));
}

/// Whether each of the seven slots holds a patch.
pub open spec fn all_filled(slots: Seq<Option<(u32, Seq<u8>)>>) -> bool {
    slots.len() == 7 && forall|i: int| 0 <= i < 7 ==> (#[trigger] slots[i]) is Some
}

/// Filled slots hold one record each; empty slots hold none.
pub proof fn lemma_held_len(slots: Seq<Option<(u32, Seq<u8>)>>)
    ensures
        all_filled(slots) ==> held(slots).len() == 7,
        slots == empty_slots() ==> held(slots).len() == 0,
{
    if all_filled(slots) {
        lemma_held_len_some(slots);
    }
    if slots == empty_slots() {
        lemma_held_len_none(slots);
    }
}

proof fn lemma_held_len_some(slots: Seq<Option<(u32, Seq<u8>)>>)
    requires
        forall|i: int| 0 <= i < slots.len() ==> (#[trigger] slots[i]) is Some,
    ensures
        held(slots).len() == slots.len(),
    decreases slots.len(),
{
    if slots.len() > 0 {
        let rest = slots.drop_last();
        assert forall|i: int| 0 <= i < rest.len() implies (#[trigger] rest[i]) is Some by {
            assert(rest[i] == slots[i]);
        }
        assert(slots.last() == slots[slots.len() - 1]);
        lemma_held_len_some(rest);
    }
}

proof fn lemma_held_len_none(slots: Seq<Option<(u32, Seq<u8>)>>)
    requires
        forall|i: int| 0 <= i < slots.len() ==> (#[trigger] slots[i]) is None,
    ensures
        held(slots).len() == 0,
    decreases slots.len(),
{
    if slots.len() > 0 {
        let rest = slots.drop_last();
        assert forall|i: int| 0 <= i < rest.len() implies (#[trigger] rest[i]) is None by {
            assert(rest[i] == slots[i]);
        }
        assert(slots.last() == slots[slots.len() - 1]);
        lemma_held_len_none(rest);
    }
}

impl SurvivalManager {
    /// The slots are all filled or all empty: the patches are taken and
    /// handed back seven at a time.
    #[verifier::type_invariant]
    spec fn all_or_nothing(&self) -> bool {
        self.slots() == empty_slots() || all_filled(self.slots())
    }

    /// The records held in the seven slots, in the order: scenario loader,
    /// table loader, clear save, cards, result save, interrupted replay,
    /// cleared replay.
    pub closed spec fn slots(&self) -> Seq<Option<(u32, Seq<u8>)>> {
        seq![
            slot_view(self.tamperer_load_txt),
            slot_view(self.tamperer_load_csv),
            slot_view(self.tamperer_save_clear),
            slot_view(self.tamperer_add_cards),
            slot_view(self.tamperer_save_result),
            slot_view(self.tamperer_save_replay_interrupted),
            slot_view(self.tamperer_save_replay_clear),
        ]
    }

    /// Whether the survival mode is on.
    pub open spec fn active(&self) -> bool {
        self.slots()[0] is Some
    }

    /// A manager with the survival mode off and nothing patched.
    pub fn new() -> (m: SurvivalManager)
        ensures
            m.slots() == empty_slots(),
            !m.active(),
    {
        let m = SurvivalManager {
            tamperer_load_txt: None,
            tamperer_load_csv: None,
            tamperer_save_clear: None,
            tamperer_add_cards: None,
            tamperer_save_result: None,
            tamperer_save_replay_interrupted: None,
            tamperer_save_replay_clear: None,
        };
        assert(m.slots() =~= empty_slots());
        m
    }

    /// The landing address of the near jump that the patch in slot `i`
    /// overwrote, when the slot holds a patch of a whole near jump whose
    /// landing address fits in signed 32-bit arithmetic.
    pub open spec fn original_target(&self, i: int) -> Option<u32> {
        match self.slots()[i] {
            Some(t) => if t.1.len() >= 5 && jmp_sum_fits(t.0 as int, stored_operand(t.1)) {
                Some(wrap32(jmp_sum(t.0 as int, stored_operand(t.1))) as u32)
            } else {
                None
            },
            None => None,
        }
    }

    /// The game's own scenario text loader, which the redirected call used
    /// to reach: `None` when the survival mode is off (or the overwritten
    /// bytes are not a near jump whose landing address can be computed).
    pub fn original_load_txt(&self) -> (target: Option<u32>)
        ensures
            target == self.original_target(0),
    {
        match &self.tamperer_load_txt {
            Some(t) => t.checked_jmp_target_addr(),
            None => None,
        }
    }

    /// The game's own table loader, which the redirected call used to
    /// reach; see [`SurvivalManager::original_load_txt`].
    pub fn original_load_csv(&self) -> (target: Option<u32>)
        ensures
            target == self.original_target(1),
    {
        match &self.tamperer_load_csv {
            Some(t) => t.checked_jmp_target_addr(),
            None => None,
        }
    }

    /// Whether the survival mode is on: then all seven patches are held,
    /// otherwise none.
    pub fn is_active(&self) -> (r: bool)
        ensures
            r == self.active(),
            r ==> all_filled(self.slots()),
            !r ==> self.slots() == empty_slots(),
    {
        proof {
            use_type_invariant(self);
        }
        self.tamperer_load_txt.is_some()
    }

    /// Empties a manager, handing back what it held in slot order.
    fn take_all(m: SurvivalManager) -> (held_records: Vec<Tamperer>)
        ensures
            records(held_records@) == held(m.slots()),
            m.active() ==> held_records@.len() == 7,
            !m.active() ==> held_records@.len() == 0,
    {
        proof {
            use_type_invariant(&m);
            lemma_held_len(m.slots());
        }
        let ghost old_slots = m.slots();
        let SurvivalManager {
            tamperer_load_txt,
            tamperer_load_csv,
            tamperer_save_clear,
            tamperer_add_cards,
            tamperer_save_result,
            tamperer_save_replay_interrupted,
            tamperer_save_replay_clear,
        } = m;
        let mut list: Vec<Tamperer> = Vec::new();
        push_slot(&mut list, tamperer_load_txt);
        proof { lemma_held_take_step(old_slots, 0); }
        push_slot(&mut list, tamperer_load_csv);
        proof { lemma_held_take_step(old_slots, 1); }
        push_slot(&mut list, tamperer_save_clear);
        proof { lemma_held_take_step(old_slots, 2); }
        push_slot(&mut list, tamperer_add_cards);
        proof { lemma_held_take_step(old_slots, 3); }
        push_slot(&mut list, tamperer_save_result);
        proof { lemma_held_take_step(old_slots, 4); }
        push_slot(&mut list, tamperer_save_replay_interrupted);
        proof { lemma_held_take_step(old_slots, 5); }
        push_slot(&mut list, tamperer_save_replay_clear);
        proof {
            lemma_held_take_step(old_slots, 6);
            assert(old_slots.take(0) =~= Seq::<Option<(u32, Seq<u8>)>>::empty());
            assert(old_slots.take(7) =~= old_slots);
            assert(records(list@) =~= held(old_slots));
        }
        list
    }

    /// Takes the patches of the survival mode into the slots. Returns the
    /// records that they replace, in slot order, which the caller writes
    /// back: none when the mode was off, all seven when it was on.
    pub fn tamper(&mut self, patches: SurvivalPatches) -> (displaced: Vec<Tamperer>)
        ensures
            final(self).slots() == filled_slots(patches),
            final(self).active(),
            records(displaced@) == held(old(self).slots()),
            !old(self).active() ==> displaced@.len() == 0,
            old(self).active() ==> displaced@.len() == 7,
    {
        let mut current = SurvivalManager::new();
        core::mem::swap(&mut current, self);
        let displaced = Self::take_all(current);
        let SurvivalPatches {
            load_txt,
            load_csv,
            save_clear,
            add_cards,
            save_result,
            save_replay_interrupted,
            save_replay_clear,
        } = patches;
        *self = SurvivalManager {
            tamperer_load_txt: Some(load_txt),
            tamperer_load_csv: Some(load_csv),
            tamperer_save_clear: Some(save_clear),
            tamperer_add_cards: Some(add_cards),
            tamperer_save_result: Some(save_result),
            tamperer_save_replay_interrupted: Some(save_replay_interrupted),
            tamperer_save_replay_clear: Some(save_replay_clear),
        };
        assert(self.slots() =~= filled_slots(patches));
        displaced
    }

    /// Empties the slots, turning the survival mode off. Returns the
    /// records that were held, in slot order, which the caller writes back:
    /// all seven when the mode was on, none when it was already off (so a
    /// second `restore` writes nothing back).
    pub fn restore(&mut self) -> (removed: Vec<Tamperer>)
        ensures
            final(self).slots() == empty_slots(),
            !final(self).active(),
            records(removed@) == held(old(self).slots()),
            old(self).active() ==> removed@.len() == 7,
            !old(self).active() ==> removed@.len() == 0,
    {
        let mut current = SurvivalManager::new();
        core::mem::swap(&mut current, self);
        Self::take_all(current)
    }
}

} // verus!
