use vstd::prelude::*;
use crate::text::{string_of, texts_view};
use crate::world::MapId;

verus! {

/// A cutscene step as the rules see it; the times and fade speeds that go
/// with some steps stay with the application.
#[derive(Debug)]
pub enum CutsceneCue {
    FadeOut,
    FadeIn,
    Wait,
    ShowText(String),
    Teleport(MapId),
    PlayBgm(String),
    PlaySfx(String),
    SetFlag(String, bool),
    StartDialogue(String),
    StartDialogueCustom { npc_id: String, lines: Vec<String>, portrait_index: Option<u32> },
    WaitForDialogueEnd,
}

/// What the application measured this frame for the current step.
#[derive(Debug, Clone, Copy)]
pub struct CutsceneFrameFacts {
    /// The fade has reached its target (nearly black, or nearly clear).
    pub fade_reached: bool,
    /// The step's time is used up.
    pub timer_elapsed: bool,
    /// Skip was pressed after the text card's short grace period.
    pub skip_allowed: bool,
    /// The text card of the step is on screen.
    pub text_shown: bool,
    /// A dialogue box is open.
    pub dialogue_open: bool,
    /// The short wait before a closed dialogue counts as ended is over.
    pub dialogue_grace_over: bool,
}

/// What one frame of a cutscene asks of the game.
#[derive(Debug)]
pub enum CutsceneAction {
    /// Nothing to do this frame.
    Continue,
    /// The queue is empty: back to play.
    ReturnToPlay,
    /// Keep fading towards black.
    FadeToBlack,
    /// Keep fading towards a clear screen.
    FadeToClear,
    ShowText(String),
    HideText,
    Teleport(MapId, i32, i32),
    PlayMusic(String),
    PlaySfx(String),
    SetFlag(String, bool),
    /// Start a dialogue: the NPC, custom lines (the NPC's own dialogue when
    /// none) and the portrait.
    StartDialogue(String, Option<Vec<String>>, Option<u32>),
}

/// One frame of a cutscene for the step at the front of the queue: whether
/// the step is done (and leaves the queue), and what the game must do.
/// Fades run until the fade is reached; a wait until its time is up; a text
/// card until its time is up or it is skipped, shown while it is not on
/// screen and hidden when done; teleports (to tile 10, 10), music, sounds,
/// flags and dialogue starts act at once; waiting for a dialogue ends once
/// the dialogue is closed and the short grace period is over.
pub open spec fn cutscene_frame_ok(cue: Option<CutsceneCue>, f: CutsceneFrameFacts, done: bool, a: CutsceneAction) -> bool {
    match cue {
        None => !done && a is ReturnToPlay,
        Some(c) => match c {
            CutsceneCue::FadeOut => done == f.fade_reached && a is FadeToBlack,
            CutsceneCue::FadeIn => done == f.fade_reached && a is FadeToClear,
            CutsceneCue::Wait => done == f.timer_elapsed && a is Continue,
            CutsceneCue::ShowText(t) => {
                &&& done == (f.timer_elapsed || f.skip_allowed)
                &&& done ==> a is HideText
                &&& !done && !f.text_shown ==> (a matches CutsceneAction::ShowText(s) && s@ == t@)
                &&& !done && f.text_shown ==> a is Continue
            },
            CutsceneCue::Teleport(m) => done && a == CutsceneAction::Teleport(m, 10, 10),
            CutsceneCue::PlayBgm(t) => done && (a matches CutsceneAction::PlayMusic(s) && s@ == t@),
            CutsceneCue::PlaySfx(t) => done && (a matches CutsceneAction::PlaySfx(s) && s@ == t@),
            CutsceneCue::SetFlag(k, v) => done && (a matches CutsceneAction::SetFlag(s, b) && s@ == k@ && b == v),
            CutsceneCue::StartDialogue(n) => done && (a matches CutsceneAction::StartDialogue(s, l, p) && s@ == n@ && l is None && p is None),
            CutsceneCue::StartDialogueCustom { npc_id, lines, portrait_index } => done
                && (a matches CutsceneAction::StartDialogue(s, l, p) && s@ == npc_id@ && p == portrait_index
                    && (l matches Some(ls) && texts_view(ls@) == texts_view(lines@))),
            CutsceneCue::WaitForDialogueEnd => done == (!f.dialogue_open && f.dialogue_grace_over) && a is Continue,
        },
    }
}

fn copy_texts(v: &Vec<String>) -> (r: Vec<String>)
    ensures
        texts_view(r@) == texts_view(v@),
{
    let mut r: Vec<String> = Vec::new();
    let mut i: usize = 0;
    while i < v.len()
        invariant
            i <= v.len(),
            texts_view(r@) == texts_view(v@.take(i as int)),
        decreases v.len() - i,
    {
        let ghost before = r@;
        r.push(string_of(v[i].as_str()));
        proof {
            assert(texts_view(r@) =~= texts_view(before).push(v@[i as int]@));
            assert(texts_view(v@.take(i as int + 1)) =~= texts_view(v@.take(i as int)).push(v@[i as int]@));
        }
        i = i + 1;
    }
    proof {
        assert(v@.take(v.len() as int) =~= v@);
    }
    r
}

pub fn cutscene_frame(cue: Option<&CutsceneCue>, facts: &CutsceneFrameFacts) -> (r: (bool, CutsceneAction))
    ensures
        cutscene_frame_ok(match cue { Some(c) => Some(*c), None => None }, *facts, r.0, r.1),
{
    let c = match cue {
        None => return (false, CutsceneAction::ReturnToPlay),
        Some(c) => c,
    };
    match c {
        CutsceneCue::FadeOut => (facts.fade_reached, CutsceneAction::FadeToBlack),
        CutsceneCue::FadeIn => (facts.fade_reached, CutsceneAction::FadeToClear),
        CutsceneCue::Wait => (facts.timer_elapsed, CutsceneAction::Continue),
        CutsceneCue::ShowText(t) => {
            if facts.timer_elapsed || facts.skip_allowed {
                (true, CutsceneAction::HideText)
            } else if !facts.text_shown {
                (false, CutsceneAction::ShowText(string_of(t.as_str())))
            } else {
                (false, CutsceneAction::Continue)
            }
        },
        CutsceneCue::Teleport(m) => (true, CutsceneAction::Teleport(*m, 10, 10)),
        CutsceneCue::PlayBgm(t) => (true, CutsceneAction::PlayMusic(string_of(t.as_str()))),
        CutsceneCue::PlaySfx(t) => (true, CutsceneAction::PlaySfx(string_of(t.as_str()))),
        CutsceneCue::SetFlag(k, v) => (true, CutsceneAction::SetFlag(string_of(k.as_str()), *v)),
        CutsceneCue::StartDialogue(n) => (true, CutsceneAction::StartDialogue(string_of(n.as_str()), None, None)),
        CutsceneCue::StartDialogueCustom { npc_id, lines, portrait_index } => {
            (true, CutsceneAction::StartDialogue(string_of(npc_id.as_str()), Some(copy_texts(lines)), *portrait_index))
        },
        CutsceneCue::WaitForDialogueEnd => (!facts.dialogue_open && facts.dialogue_grace_over, CutsceneAction::Continue),
    }
}

} // verus!
