use buzz_ui::splash::{SplashState, FADE_NANOS, HOLD_NANOS};

/// A clock reading well after the clock's zero, as a running machine's is.
const START: u64 = 3_600_000_000_000;

fn run(state: &mut SplashState, now: u64) -> bool {
    state.begin_frame(now).is_some()
}

/// Rewind the clock rather than wait: the state is a start time and nothing
/// else, so moving it back is exactly equivalent to time having passed.
fn age(state: &mut SplashState, by: u64) {
    state.shown_at = state.shown_at.and_then(|at| at.checked_sub(by));
}

#[test]
fn it_covers_the_window_and_then_gets_out_of_the_way() {
    let mut state = SplashState::default();
    assert!(state.is_open(), "it has not run yet");

    assert!(run(&mut state, START), "the first frame draws it");
    assert!(state.is_covering(START), "and nothing behind it is usable yet");

    age(&mut state, HOLD_NANOS + 1_000_000);
    assert!(run(&mut state, START), "it is still on screen while it dissolves");
    assert!(
        !state.is_covering(START),
        "but the editor behind it takes input again from the first fading frame"
    );

    age(&mut state, FADE_NANOS);
    assert!(!run(&mut state, START), "past the fade it is gone");
    assert!(!state.is_open(), "and it never comes back");
    assert!(!run(&mut state, START), "not even when asked again");
}

#[test]
fn a_click_shortens_it_and_a_second_one_does_not_undo_that() {
    let mut state = SplashState::default();
    run(&mut state, START);

    state.skip(START);
    assert!(!state.is_covering(START), "skipping starts the dissolve");

    let after_first = state.shown_at;
    state.skip(START + 5_000_000);
    assert_eq!(state.shown_at, after_first, "a second skip must not push the fade back to its start");
}

#[test]
fn a_run_that_should_not_show_one_can_say_so() {
    let mut state = SplashState::default();
    state.dismiss();
    assert!(!state.is_open());
    assert!(!run(&mut state, START), "dismissed means it never draws");
}

#[test]
fn the_clock_starts_at_the_first_picture() {
    let mut state = SplashState::default();
    assert!(state.is_covering(START), "before it is drawn it covers the window");
    assert_eq!(state.begin_frame(START + 7), Some(0));
    assert_eq!(state.shown_at, Some(START + 7));
    assert_eq!(state.begin_frame(START + 107), Some(100));
}

#[test]
fn a_frame_exactly_at_the_end_of_the_fade_finishes_it() {
    let mut state = SplashState::default();
    state.begin_frame(START);
    assert_eq!(state.begin_frame(START + HOLD_NANOS + FADE_NANOS - 1), Some(HOLD_NANOS + FADE_NANOS - 1));
    assert_eq!(state.begin_frame(START + HOLD_NANOS + FADE_NANOS), None);
    assert!(state.finished);
}
