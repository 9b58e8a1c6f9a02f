use buzz_ui::align::Align;
use buzz_ui::command::Command;
use buzz_ui::menus::{mark, menu_enabled, MenuContext};

fn context() -> MenuContext {
    MenuContext {
        has_selection: false,
        can_undo: false,
        can_redo: false,
        inside_symbol: false,
        layer_count: 1,
        camera_on: false,
    }
}

#[test]
fn without_a_selection_the_editing_items_are_greyed() {
    let m = context();
    for c in [Command::Cut, Command::Copy, Command::Delete, Command::GroupSelection, Command::FlipHorizontal] {
        assert!(!menu_enabled(c, m), "{c:?}");
    }
    assert!(menu_enabled(Command::Paste, m), "Paste brings its own selection");
    assert!(!menu_enabled(Command::Align { op: Align::LeftEdges, to_stage: true }, m));
    let selected = MenuContext { has_selection: true, ..m };
    assert!(menu_enabled(Command::Cut, selected));
    assert!(menu_enabled(Command::Align { op: Align::LeftEdges, to_stage: true }, selected));
}

#[test]
fn undo_and_redo_follow_the_history() {
    let m = context();
    assert!(!menu_enabled(Command::Undo, m));
    assert!(!menu_enabled(Command::Redo, m));
    let m = MenuContext { can_undo: true, ..m };
    assert!(menu_enabled(Command::Undo, m));
    assert!(!menu_enabled(Command::Redo, m));
}

#[test]
fn the_last_layer_cannot_be_deleted_and_the_camera_keys_need_a_camera() {
    let m = context();
    assert!(!menu_enabled(Command::DeleteLayer, m));
    assert!(menu_enabled(Command::DeleteLayer, MenuContext { layer_count: 2, ..m }));
    assert!(!menu_enabled(Command::AddCameraKeyframe, m));
    assert!(menu_enabled(Command::ResetCamera, MenuContext { camera_on: true, ..m }));
    assert!(menu_enabled(Command::ToggleCamera, m), "the camera can always be switched on");
    assert!(!menu_enabled(Command::EditDocument, m));
    assert!(menu_enabled(Command::EditDocument, MenuContext { inside_symbol: true, ..m }));
    assert!(menu_enabled(Command::CreateMotionTween, m), "tweens say why rather than grey out");
}

#[test]
fn toggles_are_ticked_when_on() {
    assert_eq!(mark(true), "\u{2714} ");
    assert_eq!(mark(false), "   ");
}
