use hearthfield::cutscene::{cutscene_frame, CutsceneAction, CutsceneCue, CutsceneFrameFacts};
use hearthfield::world::MapId;

fn facts() -> CutsceneFrameFacts {
    CutsceneFrameFacts {
        fade_reached: false,
        timer_elapsed: false,
        skip_allowed: false,
        text_shown: false,
        dialogue_open: false,
        dialogue_grace_over: false,
    }
}

#[test]
fn empty_queue_returns_to_play() {
    let (done, a) = cutscene_frame(None, &facts());
    assert!(!done);
    assert!(matches!(a, CutsceneAction::ReturnToPlay));
}

#[test]
fn fades_and_waits_run_until_reached() {
    let (done, a) = cutscene_frame(Some(&CutsceneCue::FadeOut), &facts());
    assert!(!done && matches!(a, CutsceneAction::FadeToBlack));
    let reached = CutsceneFrameFacts { fade_reached: true, ..facts() };
    let (done, a) = cutscene_frame(Some(&CutsceneCue::FadeIn), &reached);
    assert!(done && matches!(a, CutsceneAction::FadeToClear));
    assert!(!cutscene_frame(Some(&CutsceneCue::Wait), &facts()).0);
    let elapsed = CutsceneFrameFacts { timer_elapsed: true, ..facts() };
    assert!(cutscene_frame(Some(&CutsceneCue::Wait), &elapsed).0);
}

#[test]
fn text_cards_show_then_hide() {
    let card = CutsceneCue::ShowText("Spring 1, Year 1".to_string());
    let (done, a) = cutscene_frame(Some(&card), &facts());
    assert!(!done);
    assert!(matches!(a, CutsceneAction::ShowText(ref t) if t == "Spring 1, Year 1"));
    let shown = CutsceneFrameFacts { text_shown: true, ..facts() };
    let (done, a) = cutscene_frame(Some(&card), &shown);
    assert!(!done && matches!(a, CutsceneAction::Continue));
    let skipped = CutsceneFrameFacts { text_shown: true, skip_allowed: true, ..facts() };
    let (done, a) = cutscene_frame(Some(&card), &skipped);
    assert!(done && matches!(a, CutsceneAction::HideText));
}

#[test]
fn instant_steps_act_and_finish() {
    let (done, a) = cutscene_frame(Some(&CutsceneCue::Teleport(MapId::Town)), &facts());
    assert!(done && matches!(a, CutsceneAction::Teleport(MapId::Town, 10, 10)));
    let (done, a) = cutscene_frame(Some(&CutsceneCue::SetFlag("mayor_intro_visit".to_string(), true)), &facts());
    assert!(done && matches!(a, CutsceneAction::SetFlag(ref k, true) if k == "mayor_intro_visit"));
    let (done, a) = cutscene_frame(Some(&CutsceneCue::PlayBgm("spring".to_string())), &facts());
    assert!(done && matches!(a, CutsceneAction::PlayMusic(ref t) if t == "spring"));
    let custom = CutsceneCue::StartDialogueCustom {
        npc_id: "mayor_rex".to_string(),
        lines: vec!["Hello.".to_string(), "Welcome.".to_string()],
        portrait_index: Some(7),
    };
    let (done, a) = cutscene_frame(Some(&custom), &facts());
    assert!(done);
    match a {
        CutsceneAction::StartDialogue(npc, Some(lines), Some(7)) => {
            assert_eq!(npc, "mayor_rex");
            assert_eq!(lines, vec!["Hello.".to_string(), "Welcome.".to_string()]);
        }
        _ => panic!("expected a custom dialogue start"),
    }
    let (done, a) = cutscene_frame(Some(&CutsceneCue::StartDialogue("elena".to_string())), &facts());
    assert!(done && matches!(a, CutsceneAction::StartDialogue(ref n, None, None) if n == "elena"));
}

#[test]
fn dialogue_wait_needs_closed_box_and_grace() {
    let open = CutsceneFrameFacts { dialogue_open: true, dialogue_grace_over: true, ..facts() };
    assert!(!cutscene_frame(Some(&CutsceneCue::WaitForDialogueEnd), &open).0);
    let early = CutsceneFrameFacts { dialogue_open: false, dialogue_grace_over: false, ..facts() };
    assert!(!cutscene_frame(Some(&CutsceneCue::WaitForDialogueEnd), &early).0);
    let closed = CutsceneFrameFacts { dialogue_open: false, dialogue_grace_over: true, ..facts() };
    assert!(cutscene_frame(Some(&CutsceneCue::WaitForDialogueEnd), &closed).0);
}
