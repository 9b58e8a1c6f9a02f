use buzz_ui::cast::{CastPanelState, CAST_FOLDER};
use buzz_ui::filters::{FilterPanelState, FilterTarget};
use buzz_ui::ids::LightId;
use buzz_ui::layers::{layer_kind_hint, LayerIcon, LayerKind};
use buzz_ui::lights::LightPanelState;
use buzz_ui::lipsync::{offers_to_make_a_mouth, ready_to_sync, Choice, LipSyncResponse};
use buzz_ui::motion::MotionEditorState;
use buzz_ui::shortcuts::ShortcutEditorState;
use buzz_ui::command::Command;
use buzz_ui::sound::{sync_help, SoundSync};

#[test]
fn every_sync_mode_explains_itself() {
    let mut seen = Vec::new();
    for sync in [SoundSync::Event, SoundSync::Start, SoundSync::Stop, SoundSync::Stream] {
        let help = sync_help(sync);
        assert!(!help.is_empty(), "{sync:?} has no explanation");
        assert!(!seen.contains(&help), "{sync:?} repeats another mode's");
        seen.push(help);
    }
}

#[test]
fn gizmos_are_on_by_default() {
    assert!(LightPanelState::default().gizmos);
}

#[test]
fn a_stale_selection_falls_back_to_the_first_light() {
    let state = LightPanelState { selected: Some(LightId(99)), gizmos: false, ..LightPanelState::default() };
    assert_eq!(state.shown_light(&[LightId(1)]), Some(0));
}

#[test]
fn the_selected_light_is_the_one_shown() {
    let state = LightPanelState { selected: Some(LightId(7)), ..LightPanelState::default() };
    assert_eq!(state.shown_light(&[LightId(1), LightId(7), LightId(7)]), Some(1));
    assert_eq!(LightPanelState::default().shown_light(&[]), None);
    assert_eq!(LightPanelState::default().shown_light(&[LightId(3)]), Some(0));
}

#[test]
fn a_stale_selection_falls_back_to_the_last_row() {
    let state = FilterPanelState { target: FilterTarget::Object, selected: 7 };
    assert_eq!(state.shown_row(1), Some(0));
}

#[test]
fn the_filter_rows_shown_follow_the_selection() {
    let state = FilterPanelState { target: FilterTarget::Layer, selected: 0 };
    assert_eq!(state.shown_row(0), None);
    assert_eq!(state.shown_row(3), Some(0));
    let state = FilterPanelState { selected: 2, ..FilterPanelState::default() };
    assert_eq!(state.shown_row(3), Some(2));
    assert_eq!(FilterPanelState::default().target, FilterTarget::Object);
}

#[test]
fn each_layer_switch_says_what_it_does() {
    let headings: Vec<&str> = LayerIcon::ALL.iter().map(|i| i.heading()).collect();
    assert_eq!(headings, ["show", "lock", "out"]);
    assert_eq!(LayerIcon::Eye.hint(false), "Hidden \u{2014} click to show");
    assert_eq!(LayerIcon::Lock.hint(true), "Locked \u{2014} click to unlock");
    assert_eq!(LayerIcon::Outline.hint(true), LayerIcon::Outline.hint(false));
    assert_ne!(LayerIcon::Eye.hint(true), LayerIcon::Eye.hint(false));
}

fn choice(id: u64, usable: bool) -> Choice {
    Choice { id, name: format!("Item {id}"), detail: String::new(), usable }
}

#[test]
fn sync_needs_a_track_a_mouth_and_a_layer() {
    assert!(ready_to_sync(true, Some(1), Some(10)));
    assert!(!ready_to_sync(false, Some(1), Some(10)));
    assert!(!ready_to_sync(true, None, Some(10)));
    assert!(!ready_to_sync(true, Some(1), None));
}

#[test]
fn a_mouth_is_offered_only_when_none_can_be_used() {
    assert!(offers_to_make_a_mouth(&[]));
    assert!(offers_to_make_a_mouth(&[choice(1, false), choice(2, false)]));
    assert!(!offers_to_make_a_mouth(&[choice(1, false), choice(2, true)]));
}

#[test]
fn a_lip_sync_response_starts_empty() {
    let r = LipSyncResponse::default();
    assert!(!r.confirmed && !r.cancelled && !r.make_mouth);
}

#[test]
fn the_cast_search_ignores_case() {
    let mut state = CastPanelState::default();
    assert!(state.matches("Anyone"));
    state.search = "  ROBIN".to_string();
    assert!(state.matches("robin hood"));
    assert!(!state.matches("Marian"));
    assert_eq!(CAST_FOLDER, "Cast");
}

#[test]
fn a_shortcut_capture_ends_with_the_next_key() {
    let mut state = ShortcutEditorState::default();
    state.open();
    assert!(state.open);
    state.start_capture(Command::Save);
    assert_eq!(state.key_pressed(false), Some(Command::Save));
    assert_eq!(state.capturing, None);
    assert_eq!(state.key_pressed(false), None, "nothing was waiting");

    state.start_capture(Command::Open);
    assert_eq!(state.key_pressed(true), None, "Escape cancels rather than binds");
    assert_eq!(state.capturing, None);

    state.start_capture(Command::Open);
    state.close();
    assert!(!state.open);
    assert_eq!(state.capturing, None);
}

#[test]
fn the_motion_editor_remembers_nothing() {
    assert_eq!(MotionEditorState::default(), MotionEditorState);
}

#[test]
fn every_kind_of_layer_explains_itself() {
    let kinds = [
        LayerKind::Normal,
        LayerKind::Mask,
        LayerKind::InverseMask,
        LayerKind::Masked,
        LayerKind::Guide,
        LayerKind::Guided,
        LayerKind::Folder,
    ];
    for (i, a) in kinds.iter().enumerate() {
        assert!(!layer_kind_hint(*a).is_empty());
        for b in &kinds[i + 1..] {
            assert_ne!(layer_kind_hint(*a), layer_kind_hint(*b));
        }
    }
    assert_eq!(layer_kind_hint(LayerKind::Masked), "Clipped by the mask layer above");
}
