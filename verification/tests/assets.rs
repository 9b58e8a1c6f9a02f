use buzz_ui::assets::{shorten, AssetPanelState, ThumbnailSize};

#[test]
fn folders_open_and_shut() {
    let mut state = AssetPanelState::default();
    assert!(!state.is_expanded("Trees"));
    state.toggle("Trees");
    state.toggle("Lamps");
    assert!(state.is_expanded("Trees"));
    assert!(state.is_expanded("Lamps"));
    state.toggle("Trees");
    assert!(!state.is_expanded("Trees"));
    assert!(state.is_expanded("Lamps"), "shutting one folder shut another");
}

#[test]
fn the_asset_search_ignores_case_and_spaces() {
    let mut state = AssetPanelState::default();
    assert!(state.matches("Oak"));
    state.search = " OAK ".to_string();
    assert!(state.matches("Old oak tree"));
    assert!(!state.matches("Lamp-post"));
}

#[test]
fn long_names_are_cut_with_an_ellipsis() {
    assert_eq!(shorten("Oak", 10), "Oak");
    assert_eq!(shorten("Lamp-post", 9), "Lamp-post");
    assert_eq!(shorten("Lamp-post", 5), "Lamp\u{2026}");
    assert_eq!(shorten("Lamp-post", 0), "\u{2026}");
}

#[test]
fn only_large_pictures_make_a_grid() {
    assert!(ThumbnailSize::Large.is_grid());
    assert!(!ThumbnailSize::Medium.is_grid());
    assert!(!ThumbnailSize::Small.is_grid());
    assert_eq!(ThumbnailSize::default(), ThumbnailSize::Medium);
    let labels: Vec<&str> = ThumbnailSize::ALL.iter().map(|t| t.label()).collect();
    assert_eq!(labels, ["Small", "Medium", "Large"]);
}
