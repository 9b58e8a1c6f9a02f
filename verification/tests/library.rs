use buzz_ui::ids::SymbolId;
use buzz_ui::library::{
    flatten_rows, leaf_name, LibraryFolder, LibraryLevel, LibraryState, LibrarySymbol, MotionFilter, Row,
    SymbolKind,
};

fn symbol(id: u64, name: &str, kind: SymbolKind, animated: bool) -> LibrarySymbol {
    LibrarySymbol { id: SymbolId(id), name: name.to_string(), kind, animated }
}

/// The library the original panel tests use: two graphics in nested folders,
/// a movie clip at the root and an empty folder.
fn library_tree() -> LibraryLevel {
    let hero = LibraryFolder {
        path: "Characters/Hero".to_string(),
        folders: vec![],
        symbols: vec![symbol(2, "Hero Arm", SymbolKind::Graphic, false)],
    };
    let characters = LibraryFolder {
        path: "Characters".to_string(),
        folders: vec![hero],
        symbols: vec![symbol(1, "Hero Body", SymbolKind::Graphic, false)],
    };
    let empty = LibraryFolder { path: "Empty".to_string(), folders: vec![], symbols: vec![] };
    LibraryLevel {
        folders: vec![characters, empty],
        symbols: vec![symbol(3, "Loop", SymbolKind::MovieClip, true)],
    }
}

fn all_folders() -> Vec<String> {
    vec!["Characters".to_string(), "Characters/Hero".to_string(), "Empty".to_string()]
}

#[test]
fn search_matches_case_insensitively_anywhere_in_the_name() {
    let mut state = LibraryState { search: "hero".to_string(), ..Default::default() };
    state.sync_search();
    assert!(state.matches("Hero Body"));
    assert!(state.matches("SUPERHERO"));
    assert!(!state.matches("Loop"));

    state.search = "HERO".to_string();
    state.sync_search();
    assert!(state.matches("hero body"));
}

#[test]
fn an_empty_search_matches_everything() {
    let state = LibraryState::default();
    assert!(state.matches("anything at all"));

    let state = LibraryState { search: "   ".to_string(), ..Default::default() };
    assert!(!state.is_searching(), "whitespace is not a search");
    assert!(state.matches("anything at all"));
}

#[test]
fn expanding_a_folder_toggles_it() {
    let mut state = LibraryState::default();
    assert!(!state.is_expanded("Characters"));
    state.toggle("Characters");
    assert!(state.is_expanded("Characters"));
    state.toggle("Characters");
    assert!(!state.is_expanded("Characters"));
}

#[test]
fn searching_expands_every_folder_including_intermediates() {
    let mut state = LibraryState::default();
    state.expand_all(&all_folders());
    for folder in ["Characters", "Characters/Hero", "Empty"] {
        assert!(state.is_expanded(folder), "{folder} should be open");
    }
}

#[test]
fn symbols_are_grouped_into_animated_and_static() {
    let tree = library_tree();
    let mut state = LibraryState::default();
    state.expand_all(&all_folders());

    let rows = flatten_rows(&tree, &state);

    let animated_over_loop = rows.windows(2).any(|w| {
        matches!(w[0], Row::Group { label: "Animated", .. })
            && matches!(&w[1], Row::Symbol { id, .. } if *id == SymbolId(3))
    });
    assert!(animated_over_loop, "the movie clip is under an Animated heading");
    assert!(
        rows.iter().any(|r| matches!(r, Row::Group { label: "Static", .. })),
        "the graphics are under a Static heading"
    );
}

fn names(rows: &[Row]) -> Vec<String> {
    let mut names: Vec<String> = rows
        .iter()
        .filter_map(|r| match r {
            Row::Symbol { name, .. } => Some(name.clone()),
            _ => None,
        })
        .collect();
    names.sort();
    names
}

#[test]
fn the_motion_filter_narrows_the_list() {
    let tree = library_tree();
    let mut state = LibraryState { motion: MotionFilter::Animated, ..Default::default() };
    state.expand_all(&all_folders());

    let rows = flatten_rows(&tree, &state);
    assert!(
        !rows.iter().any(|r| matches!(r, Row::Group { .. })),
        "no headings when only one kind is shown"
    );
    assert_eq!(names(&rows), ["Loop"], "only the movie clip is animated");

    state.motion = MotionFilter::Static;
    let rows = flatten_rows(&tree, &state);
    assert_eq!(names(&rows), ["Hero Arm", "Hero Body"], "the rest are stills");
}

#[test]
fn a_shut_folder_hides_what_is_in_it() {
    let tree = library_tree();
    let state = LibraryState::default();
    let rows = flatten_rows(&tree, &state);
    // Two folder rows, then the movie clip under its heading.
    assert_eq!(rows.len(), 4);
    assert!(matches!(&rows[0], Row::Folder { path, leaf, depth: 0 } if path == "Characters" && leaf == "Characters"));
    assert!(matches!(&rows[1], Row::Folder { path, .. } if path == "Empty"));
    assert!(matches!(rows[2], Row::Group { label: "Animated", depth: 0 }));
    assert!(matches!(&rows[3], Row::Symbol { name, .. } if name == "Loop"));
}

#[test]
fn an_open_folder_lists_its_contents_one_level_deeper() {
    let tree = library_tree();
    let mut state = LibraryState::default();
    state.toggle("Characters");
    let rows = flatten_rows(&tree, &state);
    assert!(matches!(&rows[1], Row::Folder { path, leaf, depth: 1 } if path == "Characters/Hero" && leaf == "Hero"));
    assert!(matches!(rows[2], Row::Group { label: "Static", depth: 1 }));
    assert!(matches!(&rows[3], Row::Symbol { name, depth: 1, .. } if name == "Hero Body"));
}

#[test]
fn a_search_keeps_only_the_matching_symbols() {
    let tree = library_tree();
    let mut state = LibraryState { search: "  ARM ".to_string(), ..Default::default() };
    state.sync_search();
    state.expand_all(&all_folders());
    let rows = flatten_rows(&tree, &state);
    assert_eq!(names(&rows), ["Hero Arm"]);
}

#[test]
fn a_folder_is_shown_by_the_last_part_of_its_path() {
    assert_eq!(leaf_name("Characters/Hero"), "Hero");
    assert_eq!(leaf_name("Props"), "Props");
    assert_eq!(leaf_name("a/b/"), "");
    assert_eq!(leaf_name(""), "");
}

#[test]
fn a_rename_in_progress_is_reported() {
    let mut state = LibraryState::default();
    assert_eq!(state.naming(), None);
    state.start_naming(SymbolId(7), "Symbol 1".to_string());
    assert_eq!(state.naming(), Some(SymbolId(7)));
}

#[test]
fn the_motion_filter_passes_what_it_says() {
    assert!(MotionFilter::All.accepts(true) && MotionFilter::All.accepts(false));
    assert!(MotionFilter::Animated.accepts(true) && !MotionFilter::Animated.accepts(false));
    assert!(!MotionFilter::Static.accepts(true) && MotionFilter::Static.accepts(false));
    assert_eq!(MotionFilter::default(), MotionFilter::All);
    let labels: Vec<&str> = MotionFilter::ALL.iter().map(|m| m.label()).collect();
    assert_eq!(labels, ["All", "Animated", "Static"]);
}

#[test]
fn an_open_unfiltered_library_lists_every_symbol_once() {
    let tree = library_tree();
    let mut state = LibraryState::default();
    state.expand_all(&all_folders());
    let rows = flatten_rows(&tree, &state);
    assert_eq!(names(&rows), ["Hero Arm", "Hero Body", "Loop"]);
}
