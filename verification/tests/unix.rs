use procctl::launch::Stream;
use procctl::unix::{spawn_process, split_arguments};

#[test]
fn arguments_are_cut_at_spaces() {
    assert_eq!(split_arguments("-a -b c"), vec!["-a", "-b", "c"]);
}

#[test]
fn arguments_are_trimmed() {
    assert_eq!(split_arguments("\t-a\n -b\t"), vec!["-a", "-b"]);
}

#[test]
fn empty_pieces_are_empty_arguments() {
    assert_eq!(split_arguments(""), vec![""]);
    assert_eq!(split_arguments(" "), vec!["", ""]);
    assert_eq!(split_arguments("a  b"), vec!["a", "", "b"]);
    assert_eq!(split_arguments(" a "), vec!["", "a", ""]);
    assert_eq!(split_arguments("a \t b"), vec!["a", "", "b"]);
}

#[test]
fn only_a_space_cuts() {
    assert_eq!(split_arguments("a\tb"), vec!["a\tb"]);
    assert_eq!(split_arguments("a\u{a0}b c"), vec!["a\u{a0}b", "c"]);
}

#[test]
fn arguments_agree_with_split_and_trim() {
    let texts = ["", "x", "--flag value", "  lead", "trail  ", "a  b   c", "\u{e9} \u{4e2d}\u{3000} z"];
    for text in texts {
        let expected: Vec<String> = text.split(' ').map(|piece| piece.trim().to_string()).collect();
        assert_eq!(split_arguments(text), expected);
    }
}

#[test]
fn command_holds_path_arguments_and_directory() {
    let command = spawn_process("/bin/echo", Some("hello world"), Some("/tmp"));
    assert_eq!(command.program, "/bin/echo");
    assert_eq!(command.args, vec!["hello", "world"]);
    assert_eq!(command.current_dir.as_deref(), Some("/tmp"));
}

#[test]
fn command_without_parameters_has_no_arguments() {
    let command = spawn_process("/bin/true", None, None);
    assert_eq!(command.program, "/bin/true");
    assert!(command.args.is_empty());
    assert_eq!(command.current_dir, None);
}

#[test]
fn command_pipes_all_three_streams() {
    let command = spawn_process("/bin/true", None, None);
    assert_eq!(command.stdin, Stream::Piped);
    assert_eq!(command.stdout, Stream::Piped);
    assert_eq!(command.stderr, Stream::Piped);
}
