use std::path::PathBuf;

use egui_opengl_app::app_state::AppState;

#[test]
fn toggle_play_flips_and_toggle_playing_is_the_same() {
    let mut state = AppState::new();
    state.toggle_play();
    assert!(state.playing);
    state.toggle_playing();
    assert!(!state.playing);
    assert_eq!(state.frame_count, 0);
    assert_eq!(state.status_text, "Ready");
}

#[test]
fn step_adds_one_frame_and_reset_goes_back() {
    let mut state = AppState::new();
    state.toggle_play();
    state.step();
    state.step();
    state.step();
    assert_eq!(state.frame_count, 3);
    assert!(state.playing);
    state.reset();
    assert_eq!(state.frame_count, 0);
    assert!(!state.playing);
}

#[test]
fn step_reaches_the_last_frame() {
    let mut state = AppState::new();
    state.frame_count = u64::MAX - 1;
    state.step();
    assert_eq!(state.frame_count, u64::MAX);
}

#[test]
fn status_line_of_a_fresh_state() {
    let state = AppState::new();
    assert_eq!(state.get_status(), "Mouse: (0.0, 0.0) | Frame: 0 | Ready");
}

#[test]
fn status_line_shows_pointer_in_tenths() {
    let mut state = AppState::new();
    state.update_mouse(123, 4567);
    assert_eq!(state.mouse_pos, (123, 4567));
    assert_eq!(state.get_status(), "Mouse: (12.3, 456.7) | Frame: 0 | Ready");
    state.update_mouse(-5, -120);
    assert_eq!(state.get_status(), "Mouse: (-0.5, -12.0) | Frame: 0 | Ready");
    state.update_mouse(i32::MIN, i32::MAX);
    assert_eq!(
        state.get_status(),
        "Mouse: (-214748364.8, 214748364.7) | Frame: 0 | Ready"
    );
}

#[test]
fn status_line_leaves_out_an_empty_message() {
    let mut state = AppState::new();
    state.set_status("");
    state.frame_count = 42;
    assert_eq!(state.get_status(), "Mouse: (0.0, 0.0) | Frame: 42");
}

#[test]
fn status_line_shows_the_largest_frame() {
    let mut state = AppState::new();
    state.frame_count = u64::MAX;
    state.set_status("Paused");
    assert_eq!(
        state.get_status(),
        "Mouse: (0.0, 0.0) | Frame: 18446744073709551615 | Paused"
    );
}

#[test]
fn status_with_takes_the_name_it_is_given() {
    let mut state = AppState::new();
    state.frame_count = 7;
    assert_eq!(
        state.status_with(Some("scene.json")),
        "Mouse: (0.0, 0.0) | Frame: 7 | File: scene.json | Ready"
    );
    assert_eq!(state.status_with(None), "Mouse: (0.0, 0.0) | Frame: 7 | Ready");
    assert_eq!(
        state.status_with(Some("")),
        "Mouse: (0.0, 0.0) | Frame: 7 | File:  | Ready"
    );
}

#[test]
fn set_current_file_names_the_last_component() {
    let mut state = AppState::new();
    state.set_current_file(PathBuf::from("some/dir/model.csv"));
    assert_eq!(state.current_file, Some(PathBuf::from("some/dir/model.csv")));
    assert_eq!(state.status_text, "Opened: model.csv");
    assert_eq!(
        state.get_status(),
        "Mouse: (0.0, 0.0) | Frame: 0 | File: model.csv | Opened: model.csv"
    );
}

#[test]
fn set_current_file_of_a_path_without_a_name() {
    let mut state = AppState::new();
    state.set_current_file(PathBuf::from(".."));
    assert_eq!(state.status_text, "Opened: ");
    assert_eq!(state.get_status(), "Mouse: (0.0, 0.0) | Frame: 0 | File:  | Opened: ");
}

#[test]
fn opened_records_path_and_name() {
    let mut state = AppState::new();
    state.opened(PathBuf::from("a/b.txt"), "shown.txt");
    assert_eq!(state.current_file, Some(PathBuf::from("a/b.txt")));
    assert_eq!(state.status_text, "Opened: shown.txt");
}

#[test]
fn open_file_dialog_sets_the_request() {
    let mut state = AppState::new();
    state.open_file_dialog();
    assert!(state.file_open_dialog);
    assert!(!state.playing);
}
