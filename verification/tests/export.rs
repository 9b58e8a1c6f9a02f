use buzz_ui::export::{
    ContainerChoice, DitherChoice, ExportKind, ExportResponse, ExportState, VideoChoice,
};

fn state() -> ExportState {
    let mut s = ExportState::default();
    s.open(ExportKind::Image, (550, 400), 10);
    s
}

#[test]
fn opening_sizes_the_dialog_to_the_document() {
    let s = state();
    assert_eq!((s.width, s.height), (550, 400));
    assert_eq!(s.open, Some(ExportKind::Image));
    assert_eq!(s.to_frame, 9, "the last frame, not the count");
}

#[test]
fn a_frame_range_is_inclusive_and_survives_being_typed_backwards() {
    let mut s = state();
    s.from_frame = 2;
    s.to_frame = 5;
    assert_eq!(s.range(), 2..6);
    assert_eq!(s.range().len(), 4);

    s.from_frame = 5;
    s.to_frame = 2;
    assert_eq!(s.range(), 2..6, "a backwards range still exports those frames");

    s.from_frame = 3;
    s.to_frame = 3;
    assert_eq!(s.range(), 3..4, "a single frame is one file");
}

#[test]
fn closing_clears_any_progress() {
    let mut s = state();
    s.progress = Some((3, 10));
    s.close();
    assert!(s.open.is_none());
    assert!(s.progress.is_none());
}

#[test]
fn a_film_of_no_frames_still_has_one() {
    let mut s = ExportState::default();
    s.open(ExportKind::Sequence, (100, 100), 0);
    assert_eq!(s.frame_count(), 1);
    assert_eq!(s.to_frame, 0);
}

#[test]
fn export_kinds_say_what_they_need() {
    assert!(ExportKind::Sequence.is_range());
    assert!(!ExportKind::Image.is_range());
    assert!(ExportKind::Video.needs_ffmpeg());
    assert!(!ExportKind::Image.needs_ffmpeg());
    assert!(!ExportKind::Image.title().is_empty());
}

#[test]
fn containers_name_their_files() {
    assert_eq!(ContainerChoice::Mp4.extension(), "mp4");
    assert!(!ContainerChoice::Mp4.label().is_empty());
    assert!(!VideoChoice::H264.label().is_empty());
    assert!(!VideoChoice::H264.help().is_empty());
    assert!(!DitherChoice::NoDither.label().is_empty());
}

#[test]
fn a_fresh_response_asks_for_nothing() {
    let r = ExportResponse::default();
    assert!(!r.confirmed && !r.cancelled && !r.save_preset);
    assert!(r.apply_preset.is_none());
}

#[test]
fn editing_a_setting_forgets_the_preset() {
    let mut s = state();
    s.selected_preset = Some("Web".to_string());
    s.preset_name = "draft".to_string();
    let before = s.fingerprint();
    s.width = 640;
    s.forget_preset_if_edited(before);
    assert_eq!(s.selected_preset, None);
    assert_eq!(s.width, 640, "the edit itself stays");
    assert_eq!(s.preset_name, "draft", "the name being typed is left alone");
}

#[test]
fn leaving_the_settings_alone_keeps_the_preset() {
    let mut s = state();
    s.selected_preset = Some("Web".to_string());
    let before = s.fingerprint();
    s.forget_preset_if_edited(before);
    assert_eq!(s.selected_preset, Some("Web".to_string()));
}

#[test]
fn a_removed_preset_is_not_listed() {
    let mut s = state();
    let presets = vec!["Web".to_string(), "Print".to_string()];
    s.selected_preset = Some("Print".to_string());
    assert_eq!(s.listed_preset(&presets), Some(1));
    s.selected_preset = Some("Gone".to_string());
    assert_eq!(s.listed_preset(&presets), None);
    s.selected_preset = None;
    assert_eq!(s.listed_preset(&presets), None);
}
