use buzz_ui::actions::{ActionsResponse, ActionsState};

#[test]
fn a_blank_panel_has_nothing_to_run() {
    let mut state = ActionsState::default();
    assert!(!state.has_source());

    state.source = "   \n\t ".to_string();
    assert!(!state.has_source(), "whitespace is not a script");

    state.source = "fl.trace(1);".to_string();
    assert!(state.has_source());
}

#[test]
fn reporting_a_run_replaces_the_previous_output() {
    let mut state = ActionsState::default();
    state.report(vec!["first".into()], None, "ok".into());
    assert_eq!(state.output, vec!["first".to_string()]);

    state.report(vec!["second".into()], Some("boom".into()), "failed".into());
    assert_eq!(state.output, vec!["second".to_string()]);
    assert_eq!(state.error.as_deref(), Some("boom"));
}

#[test]
fn clearing_leaves_the_script_alone() {
    let mut state = ActionsState {
        source: "fl.trace(1);".into(),
        ..ActionsState::default()
    };
    state.report(vec!["1".into()], Some("boom".into()), "failed".into());
    state.clear_output();

    assert!(state.output.is_empty());
    assert!(state.error.is_none());
    assert!(state.summary.is_none());
    assert_eq!(state.source, "fl.trace(1);", "clearing output is not clearing the script");
}

#[test]
fn a_report_keeps_the_summary_and_the_script() {
    let mut state = ActionsState {
        source: "fl.trace(2);".into(),
        ..ActionsState::default()
    };
    state.report(vec!["a".into(), "b".into()], None, "2 lines".into());
    assert_eq!(state.summary.as_deref(), Some("2 lines"));
    assert!(state.error.is_none());
    assert_eq!(state.source, "fl.trace(2);");
}

#[test]
fn a_script_with_text_around_blank_lines_is_a_script() {
    let state = ActionsState {
        source: "\n  x  \n".into(),
        ..ActionsState::default()
    };
    assert!(state.has_source());
}

#[test]
fn a_fresh_panel_has_not_asked_to_run() {
    assert!(!ActionsResponse::default().run);
}
