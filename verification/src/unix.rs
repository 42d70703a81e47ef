//! Launching by starting the program directly.

use crate::launch::{text_of, Command, CommandView, Stream};
use crate::text::{
    chars_of, is_white_outside, is_whitespace, lemma_split_then_join, lemma_trim_is_the_core,
    split, trim, trim_bounds,
};
use vstd::prelude::*;

verus! {

/// The arguments that an argument string stands for: its pieces between
/// spaces, each without the white space around it. A piece that is empty or
/// all white space is an empty argument.
pub open spec fn arguments(params: Seq<char>) -> Seq<Seq<char>> {
    split(params, ' ').map_values(|piece: Seq<char>| trim(piece))
}

/// The command that starts `path` with the arguments of `params` in
/// `working_directory`. Its three standard streams are pipes, so the new
/// process shares none with its launcher.
pub open spec fn command_for(
    path: Seq<char>,
    params: Option<Seq<char>>,
    working_directory: Option<Seq<char>>,
) -> CommandView {
    CommandView {
        program: path,
        args: match params {
            Some(text) => arguments(text),
            None => Seq::empty(),
        },
        current_dir: working_directory,
        stdin: Stream::Piped,
        stdout: Stream::Piped,
        stderr: Stream::Piped,
    }
}

/// There is one argument for each piece of the argument string. No argument
/// holds a space, and none begins or ends with white space.
pub proof fn lemma_arguments_are_bare(params: Seq<char>, k: int)
    requires
        0 <= k < arguments(params).len(),
    ensures
        arguments(params).len() == split(params, ' ').len(),
        !arguments(params)[k].contains(' '),
        arguments(params)[k].len() > 0 ==> !is_whitespace(arguments(params)[k][0])
            && !is_whitespace(arguments(params)[k][arguments(params)[k].len() - 1]),
{
    let piece = split(params, ' ')[k];
    let argument = arguments(params)[k];
    assert(argument == trim(piece));
    lemma_split_then_join(params, ' ');
    lemma_trim_is_the_core(piece);
    let (from, to) = choose|from: int, to: int|
        #[trigger] is_white_outside(piece, from, to) && piece.subrange(from, to) == trim(piece);
    if argument.contains(' ') {
        let at = choose|at: int| 0 <= at < argument.len() && argument[at] == ' ';
        assert(piece[from + at] == ' ');
        assert(piece.contains(' '));
    }
}

/// Cuts an argument string into its arguments.
pub fn split_arguments(params: &str) -> (args: Vec<String>)
    ensures
        args.deep_view() == arguments(params@),
{
    let chars = chars_of(params);
    let mut args: Vec<String> = Vec::new();
    let ghost mut pieces: Seq<Seq<char>> = Seq::empty();
    let mut start: usize = 0;
    let mut i: usize = 0;
    assert(chars@.subrange(0, 0) =~= Seq::<char>::empty());
    while i < chars.len()
        invariant
            start <= i <= chars.len(),
            chars@ == params@,
            split(chars@.subrange(0, i as int), ' ') == pieces.push(
                chars@.subrange(start as int, i as int),
            ),
            args.deep_view() == pieces.map_values(|piece: Seq<char>| trim(piece)),
        decreases chars.len() - i,
    {
        let ghost read = chars@.subrange(0, i as int);
        let ghost before = split(read, ' ');
        assert(chars@.subrange(0, i + 1).subrange(0, i as int) =~= read);
        if chars[i] == ' ' {
            let (a, b) = trim_bounds(&chars, start, i);
            let arg = String::from_str(params.substring_char(a, b));
            let ghost old_args = args.deep_view();
            args.push(arg);
            proof {
                let piece = chars@.subrange(start as int, i as int);
                pieces = pieces.push(piece);
                assert(pieces.map_values(|piece: Seq<char>| trim(piece)) =~= old_args.push(
                    trim(piece),
                ));
                assert(chars@.subrange(i + 1, i + 1) =~= Seq::<char>::empty());
            }
            start = i + 1;
        } else {
            assert(before[before.len() - 1].push(chars@[i as int]) =~= chars@.subrange(
                start as int,
                i + 1,
            ));
        }
        i += 1;
    }
    assert(chars@.subrange(0, i as int) =~= chars@);
    let (a, b) = trim_bounds(&chars, start, i);
    let arg = String::from_str(params.substring_char(a, b));
    let ghost old_args = args.deep_view();
    args.push(arg);
    proof {
        let piece = chars@.subrange(start as int, i as int);
        assert(pieces.push(piece).map_values(|piece: Seq<char>| trim(piece)) =~= old_args.push(
            trim(piece),
        ));
    }
    args
}

/// Prepares the launch of the program at `path`: the command that the caller
/// is to start.
pub fn spawn_process(path: &str, params: Option<&str>, working_directory: Option<&str>) -> (command:
    Command)
    ensures
        command@ == command_for(path@, text_of(params), text_of(working_directory)),
{
    let args = match params {
        Some(text) => split_arguments(text),
        None => Vec::new(),
    };
    let current_dir = match working_directory {
        Some(dir) => Some(String::from_str(dir)),
        None => None,
    };
    let command = Command {
        program: String::from_str(path),
        args,
        current_dir,
        stdin: Stream::Piped,
        stdout: Stream::Piped,
        stderr: Stream::Piped,
    };
    assert(command@.args =~= command_for(path@, text_of(params), text_of(working_directory)).args);
    command
}

} // verus!
