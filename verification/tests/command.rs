use std::collections::HashMap;

use buzz_ui::align::{Align, Distribute, MatchSize};
use buzz_ui::command::{all_with_shortcuts, palette_commands, Command, Key, Modifiers, PALETTE_LEN};

const NONE: Modifiers = Modifiers { alt: false, ctrl: false, shift: false };
const CTRL: Modifiers = Modifiers { alt: false, ctrl: true, shift: false };
const SHIFT: Modifiers = Modifiers { alt: false, ctrl: false, shift: true };

/// Every command with a shortcut, for exhaustive checks.
fn all_commands() -> Vec<Command> {
    vec![
        Command::New,
        Command::Open,
        Command::Save,
        Command::SaveAs,
        Command::Close,
        Command::Quit,
        Command::Undo,
        Command::Redo,
        Command::Cut,
        Command::Copy,
        Command::Paste,
        Command::Delete,
        Command::SelectAll,
        Command::Deselect,
        Command::DuplicateSelection,
        Command::ZoomIn,
        Command::ZoomOut,
        Command::ZoomActual,
        Command::ZoomFitInWindow,
        Command::ZoomShowFrame,
        Command::ZoomShowAll,
        Command::ToggleRulers,
        Command::ToggleGrid,
        Command::ToggleGuides,
        Command::ToggleSnapping,
        Command::TogglePasteboard,
        Command::GroupSelection,
        Command::UngroupSelection,
        Command::BringToFront,
        Command::BringForward,
        Command::SendBackward,
        Command::SendToBack,
        Command::ThickenStroke,
        Command::ThinStroke,
        Command::TraceBitmap,
        Command::TraceLineArt,
        Command::ConvertLinesToFills,
        Command::ExpandFill,
        Command::SmoothSelection,
        Command::StraightenSelection,
        Command::RecogniseShape,
        Command::FlipHorizontal,
        Command::FlipVertical,
        Command::RotateClockwise,
        Command::RotateAnticlockwise,
        Command::NewLayer,
        Command::NewLayerFolder,
        Command::DeleteLayer,
        Command::InsertFrame,
        Command::RemoveFrame,
        Command::InsertKeyframe,
        Command::InsertBlankKeyframe,
        Command::ClearKeyframe,
        Command::PlayPause,
        Command::NextFrame,
        Command::PreviousFrame,
        Command::FirstFrame,
        Command::LastFrame,
        Command::CutFrames,
        Command::CopyFrames,
        Command::PasteFrames,
        Command::ClearFrames,
        Command::ReverseFrames,
        Command::ToggleOnionSkin,
        Command::ToggleAutoKeyframe,
        Command::ToggleEditMultipleFrames,
        Command::ToggleCamera,
        Command::AddCameraKeyframe,
        Command::RemoveCameraKeyframe,
        Command::AddLightKeyframe,
        Command::RemoveLightKeyframe,
        Command::ResetCamera,
        Command::ImportToLibrary,
        Command::ImportToStage,
        Command::ConvertToSymbol,
        Command::NewSymbol,
        Command::EditSymbol,
        Command::EditDocument,
        Command::PlaceInstance,
        Command::DuplicateSymbol,
        Command::DeleteSymbol,
        Command::NewLibraryFolder,
        Command::CreateClassicTween,
        Command::CreateMotionTween,
        Command::CreateShapeTween,
        Command::RemoveTween,
        Command::BrushFromSelection,
        Command::AddSun,
        Command::AddSky,
        Command::AddLamp,
        Command::AddGloom,
        Command::AddFire,
        Command::AddStorm,
        Command::ToggleLightGizmos,
        Command::SetScene,
        Command::DirectScene,
        Command::AddScene,
        Command::DuplicateScene,
        Command::AddPerson,
        Command::Perform,
        Command::AddFollowThrough,
        Command::AddWiggle,
        Command::ClearModifiers,
        Command::BakeModifiers,
        Command::SetReverse,
        Command::ClearReverse,
        Command::ToggleLayoutLock,
        Command::ToggleTheme,
        Command::About,
        Command::ToggleActionsPanel,
        Command::RunScript,
        Command::ClearScriptOutput,
        Command::ExportImage,
        Command::ExportSequence,
        Command::ExportVideo,
        Command::ExportGif,
        Command::ExportWebp,
        Command::ImportSound,
        Command::ImportImage,
        Command::ImportImage,
        Command::AttachSound,
        Command::RemoveSound,
        Command::LipSync,
        Command::NewMouthSymbol,
        Command::DetectBeats,
        Command::FitToNarration,
        Command::ImportCaptions,
        Command::ExportCaptions,
    ]
}

#[test]
fn the_palette_lists_real_commands_with_labels() {
    let palette = palette_commands();
    assert!(palette.len() > 50, "the palette should list the whole catalogue");
    for c in &palette {
        assert!(!c.label().is_empty(), "{c:?} has no label");
    }
    assert!(palette.contains(&Command::Save));
    assert!(palette.contains(&Command::PlayPause));
    assert!(palette.contains(&Command::ExportVideo));
    for c in all_with_shortcuts() {
        assert!(palette.contains(&c), "{c:?} has a shortcut but is not in the palette");
    }
}

#[test]
fn every_command_has_a_label() {
    for c in all_commands() {
        assert!(!c.label().is_empty(), "{c:?} has no label");
    }
}

#[test]
fn shortcuts_do_not_collide() {
    let mut seen: HashMap<String, Command> = HashMap::new();
    for c in all_commands() {
        let Some(sc) = c.shortcut() else { continue };
        let key = format!("{:?}+{:?}", sc.modifiers, sc.logical_key);
        if let Some(previous) = seen.insert(key.clone(), c) {
            let allowed = matches!(
                (previous, c),
                (Command::ZoomShowAll, Command::TogglePasteboard)
                    | (Command::TogglePasteboard, Command::ZoomShowAll)
            );
            assert!(allowed, "{previous:?} and {c:?} both bind {key}");
        }
    }
}

fn expect(c: Command, m: Modifiers, k: Key) {
    let sc = c.shortcut().unwrap_or_else(|| panic!("{c:?} has no shortcut"));
    assert_eq!((sc.modifiers, sc.logical_key), (m, k), "{c:?}");
}

#[test]
fn the_frame_shortcuts_match_animate() {
    expect(Command::InsertFrame, NONE, Key::F5);
    expect(Command::InsertKeyframe, NONE, Key::F6);
    expect(Command::InsertBlankKeyframe, NONE, Key::F7);
    expect(Command::RemoveFrame, SHIFT, Key::F5);
    expect(Command::ClearKeyframe, SHIFT, Key::F6);
    expect(Command::PlayPause, NONE, Key::Enter);
}

#[test]
fn the_symbol_shortcuts_match_animate() {
    expect(Command::ConvertToSymbol, NONE, Key::F8);
    expect(Command::NewSymbol, CTRL, Key::F8);
    expect(Command::EditSymbol, CTRL, Key::E);
}

#[test]
fn the_familiar_shortcuts_are_what_a_user_expects() {
    expect(Command::Save, CTRL, Key::S);
    expect(Command::Undo, CTRL, Key::Z);
    expect(Command::Copy, CTRL, Key::C);
    expect(Command::Paste, CTRL, Key::V);
    expect(Command::SelectAll, CTRL, Key::A);
    expect(Command::GroupSelection, CTRL, Key::G);
}

#[test]
fn selection_dependent_commands_are_marked() {
    assert!(Command::Delete.needs_selection());
    assert!(Command::GroupSelection.needs_selection());
    assert!(!Command::Save.needs_selection());
    assert!(!Command::NewLayer.needs_selection());
}

#[test]
fn the_palette_has_its_stated_length_and_no_repeats() {
    let palette = palette_commands();
    assert_eq!(palette.len(), PALETTE_LEN);
    for (i, a) in palette.iter().enumerate() {
        for b in &palette[i + 1..] {
            assert_ne!(a, b, "{a:?} is listed twice");
        }
    }
}

#[test]
fn every_shortcut_bearing_command_is_listed_once() {
    let with = all_with_shortcuts();
    assert!(!with.is_empty());
    for c in &with {
        assert!(c.shortcut().is_some());
    }
    let count = palette_commands().iter().filter(|c| c.shortcut().is_some()).count();
    assert_eq!(with.len(), count);
}

#[test]
fn the_align_commands_take_their_names_from_the_operation() {
    let c = Command::Align { op: Align::LeftEdges, to_stage: false };
    assert_eq!(c.label(), "Left Edges");
    assert!(c.needs_selection());
    assert_eq!(Command::Distribute(Distribute::HorizontalSpacing).label(), Distribute::HorizontalSpacing.label());
    assert_eq!(Command::MatchSize(MatchSize::Both).label(), MatchSize::Both.label());
}
