use std::path::PathBuf;

use buzz_ui::recovery::{title_from_names, RecoveryChoice, RecoveryEntry, RecoveryState};

fn entry(age: u64, document: bool) -> RecoveryEntry {
    RecoveryEntry::new(
        PathBuf::from("C:/work/Scene 1.recovery.buzz"),
        document.then(|| PathBuf::from("C:/work/Scene 1.buzz")),
        age,
    )
}

#[test]
fn ages_read_the_way_somebody_would_judge_them() {
    assert_eq!(entry(0, true).when(), "just now");
    assert_eq!(entry(59, true).when(), "just now");
    assert_eq!(entry(60, true).when(), "1 minute ago");
    assert_eq!(entry(600, true).when(), "10 minutes ago");
    assert_eq!(entry(3_600, true).when(), "1 hour ago");
    assert_eq!(entry(90_000, true).when(), "1 day ago");
}

#[test]
fn unsaved_work_is_still_named_and_flagged() {
    let orphan = RecoveryEntry::new(PathBuf::from("C:/appdata/untitled-4821.recovery.buzz"), None, 120);
    assert!(orphan.is_unsaved_work());
    assert_eq!(
        orphan.title(),
        "Untitled work",
        "the process id in the filename means nothing to the reader"
    );
}

#[test]
fn a_recovery_with_a_document_is_named_after_it() {
    assert_eq!(entry(30, true).title(), "Scene 1.buzz");
    assert!(!entry(30, true).is_unsaved_work());
}

#[test]
fn nothing_found_is_not_a_prompt() {
    let state = RecoveryState::default();
    assert!(!state.is_open());
    let state = RecoveryState { found: vec![entry(45, true), entry(9_000, false)] };
    assert!(state.is_open());
    assert_ne!(RecoveryChoice::Later, RecoveryChoice::NoChoice);
}

#[test]
fn ages_count_up_in_whole_units() {
    assert_eq!(entry(119, true).when(), "1 minute ago");
    assert_eq!(entry(7_200, true).when(), "2 hours ago");
    assert_eq!(entry(86_399, true).when(), "23 hours ago");
    assert_eq!(entry(172_800, true).when(), "2 days ago");
}

#[test]
fn an_unsaved_recovery_is_named_after_its_file_less_the_suffix() {
    assert_eq!(
        title_from_names(None, Some("Walk cycle.recovery.buzz".to_string())),
        "Walk cycle"
    );
    assert_eq!(title_from_names(Some("Scene 2.buzz".to_string()), None), "Scene 2.buzz");
    assert_eq!(title_from_names(None, None), "Untitled work");
}

#[test]
fn an_entry_reads_both_names_from_its_paths() {
    let e = entry(10, true);
    assert_eq!(e.document_name.as_deref(), Some("Scene 1.buzz"));
    assert_eq!(e.recovery_name.as_deref(), Some("Scene 1.recovery.buzz"));
    let orphan = RecoveryEntry::new(PathBuf::from("/home/ann/Walk cycle.recovery.buzz"), None, 5);
    assert_eq!(orphan.document_name, None);
    assert_eq!(orphan.title(), "Walk cycle");
}
