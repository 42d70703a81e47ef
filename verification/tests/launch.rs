use procctl::launch::{LaunchError, LaunchPlan, Platform, Stream};
use procctl::{
    code_or_default, found_and_done, pid_or_sentinel, process_id, spawn_process, NO_PROCESS,
};

#[test]
fn empty_path_is_not_found() {
    for platform in [Platform::Unix, Platform::Windows] {
        let plan = spawn_process(platform, "", Some("x"), None);
        assert!(matches!(plan, Err(LaunchError::NotFound)));
    }
}

#[test]
fn unix_launch_is_a_direct_command() {
    match spawn_process(Platform::Unix, "/bin/ls", Some("-l  /tmp"), Some("/")) {
        Ok(LaunchPlan::Direct(command)) => {
            assert_eq!(command.program, "/bin/ls");
            assert_eq!(command.args, vec!["-l", "", "/tmp"]);
            assert_eq!(command.current_dir.as_deref(), Some("/"));
            assert_eq!(command.stdout, Stream::Piped);
        }
        other => panic!("unexpected plan {:?}", other),
    }
}

#[test]
fn windows_launch_goes_through_the_shell() {
    match spawn_process(Platform::Windows, "report.pdf", Some("-l  x"), None) {
        Ok(LaunchPlan::Shell(request)) => {
            assert_eq!(request.verb, "open");
            assert_eq!(request.file, "report.pdf");
            assert_eq!(request.parameters.as_deref(), Some("-l  x"));
        }
        other => panic!("unexpected plan {:?}", other),
    }
}

#[test]
fn windows_launch_refuses_a_nul_character() {
    let plan = spawn_process(Platform::Windows, "a\0", None, None);
    assert!(matches!(plan, Err(LaunchError::InvalidInput)));
}

#[test]
fn unix_launch_leaves_a_nul_character_to_the_system() {
    let plan = spawn_process(Platform::Unix, "a\0", None, None);
    assert!(matches!(plan, Ok(LaunchPlan::Direct(_))));
}

#[test]
fn process_ids_are_the_unsigned_32_bit_integers() {
    assert_eq!(process_id(0), Some(0));
    assert_eq!(process_id(1234), Some(1234));
    assert_eq!(process_id(4294967295), Some(4294967295));
    assert_eq!(process_id(4294967296), None);
    assert_eq!(process_id(-1), None);
    assert_eq!(process_id(i64::MIN), None);
    assert_eq!(process_id(i64::MAX), None);
}

#[test]
fn sentinel_stands_for_an_unknown_own_pid() {
    assert_eq!(NO_PROCESS, -1);
    assert_eq!(pid_or_sentinel(None), -1);
    assert_eq!(pid_or_sentinel(Some(0)), 0);
    assert_eq!(pid_or_sentinel(Some(4294967295)), 4294967295);
}

#[test]
fn missing_target_counts_as_failure() {
    assert!(!found_and_done(None));
    assert!(!found_and_done(Some(false)));
    assert!(found_and_done(Some(true)));
}

#[test]
fn termination_code_defaults_to_nine() {
    assert_eq!(code_or_default(None), 9);
    assert_eq!(code_or_default(Some(15)), 15);
    assert_eq!(code_or_default(Some(-3)), -3);
}
