use buzz_ui::command::{palette_commands, Command};
use buzz_ui::palette::{palette_matches, CommandPaletteState};

#[test]
fn opening_the_palette_starts_a_fresh_search() {
    let mut state = CommandPaletteState::default();
    state.query = "old".to_string();
    state.selected = 4;
    state.open();
    assert!(state.open && state.just_opened);
    assert!(state.query.is_empty());
    assert_eq!(state.selected, 0);
}

#[test]
fn toggling_closes_an_open_palette_and_opens_a_closed_one() {
    let mut state = CommandPaletteState::default();
    state.toggle();
    assert!(state.open);
    state.query = "sav".to_string();
    state.toggle();
    assert!(!state.open);
    assert_eq!(state.query, "sav", "closing keeps what was typed until the next open");
    state.toggle();
    assert!(state.open && state.query.is_empty());
}

#[test]
fn the_arrows_wrap_round_the_ends() {
    let mut state = CommandPaletteState::default();
    state.move_highlight(3, false, true);
    assert_eq!(state.selected, 2, "up from the top goes to the bottom");
    state.move_highlight(3, true, false);
    assert_eq!(state.selected, 0, "down from the bottom goes to the top");
    state.move_highlight(3, true, false);
    assert_eq!(state.selected, 1);
}

#[test]
fn a_highlight_left_over_from_a_longer_list_is_brought_onto_it() {
    let mut state = CommandPaletteState { selected: 50, ..Default::default() };
    state.move_highlight(3, false, false);
    assert_eq!(state.selected, 2);
    state.move_highlight(0, true, true);
    assert_eq!(state.selected, 0);
}

#[test]
fn typing_narrows_the_palette_ignoring_case() {
    let all = palette_matches("");
    assert_eq!(all, palette_commands(), "an empty query lists everything");

    let found = palette_matches("SAVE");
    assert!(found.contains(&Command::Save));
    assert!(found.contains(&Command::SaveAs));
    assert!(!found.contains(&Command::Open));
    for c in &found {
        assert!(c.label().to_lowercase().contains("save"), "{c:?}");
    }
    assert!(palette_matches("zzzz no such command").is_empty());
}
