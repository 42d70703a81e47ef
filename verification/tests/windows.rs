use procctl::launch::LaunchError;
use procctl::windows::{
    back_request, bring_to_back, bring_to_front, enum_windows_callback, find_main_window,
    front_request, is_main_window, spawn_process, Placement, TopLevelWindow, WindowHandleData, SHOW,
};

fn window(handle: usize, process_id: u32, owner: usize, visible: bool) -> TopLevelWindow {
    TopLevelWindow { handle, process_id, owner, visible }
}

#[test]
fn main_window_has_no_owner_and_is_visible() {
    assert!(is_main_window(0, true));
    assert!(!is_main_window(0, false));
    assert!(!is_main_window(7, true));
    assert!(!is_main_window(7, false));
}

#[test]
fn hidden_window_is_passed_over_for_the_visible_one() {
    let windows = vec![window(10, 42, 0, false), window(11, 42, 0, true)];
    assert_eq!(find_main_window(42, &windows), Some(11));
}

#[test]
fn first_qualifying_window_wins() {
    let windows = vec![
        window(1, 7, 0, true),
        window(2, 42, 9, true),
        window(3, 42, 0, true),
        window(4, 42, 0, true),
    ];
    assert_eq!(find_main_window(42, &windows), Some(3));
}

#[test]
fn no_window_is_found_where_none_qualifies() {
    let windows = vec![window(1, 7, 0, true), window(2, 42, 9, true), window(3, 42, 0, false)];
    assert_eq!(find_main_window(42, &windows), None);
    assert_eq!(find_main_window(42, &Vec::new()), None);
}

#[test]
fn callback_stops_at_a_match_and_keeps_it() {
    let mut data = WindowHandleData::new(42);
    assert_eq!(data, WindowHandleData { process_id: 42, window_handle: None });
    assert!(enum_windows_callback(&mut data, window(1, 7, 0, true)));
    assert_eq!(data.window_handle, None);
    assert!(enum_windows_callback(&mut data, window(2, 42, 0, false)));
    assert_eq!(data.window_handle, None);
    assert!(!enum_windows_callback(&mut data, window(3, 42, 0, true)));
    assert_eq!(data, WindowHandleData { process_id: 42, window_handle: Some(3) });
}

#[test]
fn front_fails_only_if_both_steps_fail() {
    assert!(!bring_to_front(0, 0));
    assert!(bring_to_front(1, 0));
    assert!(bring_to_front(0, 1));
    assert!(bring_to_front(1, 1));
    assert!(bring_to_front(0, -1));
}

#[test]
fn back_always_counts_as_done() {
    assert!(bring_to_back(0));
    assert!(bring_to_back(1));
}

#[test]
fn front_goes_on_top_and_restores() {
    let request = front_request();
    assert_eq!(request.placement, Placement::Top);
    assert!(request.keep_position && request.keep_size && request.restore);
}

#[test]
fn back_goes_to_the_bottom_and_does_not_restore() {
    let request = back_request();
    assert_eq!(request.placement, Placement::Bottom);
    assert!(request.keep_position && request.keep_size && !request.restore);
}

#[test]
fn shell_launch_opens_the_file_with_its_parameters_whole() {
    let launch = spawn_process("C:\\app.exe", Some("-a  -b"), Some("C:\\work")).unwrap();
    assert_eq!(launch.verb, "open");
    assert_eq!(launch.file, "C:\\app.exe");
    assert_eq!(launch.parameters.as_deref(), Some("-a  -b"));
    assert_eq!(launch.directory.as_deref(), Some("C:\\work"));
    assert_eq!(launch.show, SHOW);
    assert_eq!(SHOW, 5);
    assert!(launch.keep_process);
}

#[test]
fn shell_launch_without_parameters() {
    let launch = spawn_process("notes.txt", None, None).unwrap();
    assert_eq!(launch.file, "notes.txt");
    assert_eq!(launch.parameters, None);
    assert_eq!(launch.directory, None);
}

#[test]
fn shell_launch_refuses_a_nul_character() {
    assert_eq!(spawn_process("a\0b", None, None).unwrap_err(), LaunchError::InvalidInput);
    assert_eq!(spawn_process("a", Some("x\0"), None).unwrap_err(), LaunchError::InvalidInput);
    assert_eq!(spawn_process("a", None, Some("\0")).unwrap_err(), LaunchError::InvalidInput);
    assert_eq!(spawn_process("a", Some("x"), Some("\0y")).unwrap_err(), LaunchError::InvalidInput);
}
