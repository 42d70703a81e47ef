//! What a launch asks of the operating system, and how a launch can fail.
//!
//! The library decides what is to be started and how; starting it is left to
//! the caller, who reports the new process's identifier or the failure.

use vstd::prelude::*;

verus! {

/// Where a standard stream of a new process leads.
#[derive(Clone, Copy, Debug, PartialEq, Eq, Structural)]
pub enum Stream {
    /// The stream of the launching process.
    Inherited,
    /// A pipe whose other end the launching process holds.
    Piped,
}

/// A program to be started directly, with its arguments.
#[derive(Debug)]
pub struct Command {
    pub program: String,
    pub args: Vec<String>,
    pub current_dir: Option<String>,
    pub stdin: Stream,
    pub stdout: Stream,
    pub stderr: Stream,
}

/// A `Command` as plain text.
pub struct CommandView {
    pub program: Seq<char>,
    pub args: Seq<Seq<char>>,
    pub current_dir: Option<Seq<char>>,
    pub stdin: Stream,
    pub stdout: Stream,
    pub stderr: Stream,
}

impl View for Command {
    type V = CommandView;

    open spec fn view(&self) -> CommandView {
        CommandView {
            program: self.program@,
            args: self.args.deep_view(),
            current_dir: self.current_dir.deep_view(),
            stdin: self.stdin,
            stdout: self.stdout,
            stderr: self.stderr,
        }
    }
}

/// A file to be opened through the shell, which picks the handler for it.
#[derive(Debug)]
pub struct ShellLaunch {
    pub verb: String,
    pub file: String,
    pub parameters: Option<String>,
    pub directory: Option<String>,
    pub show: i32,
    pub keep_process: bool,
}

/// A `ShellLaunch` as plain text.
pub struct ShellLaunchView {
    pub verb: Seq<char>,
    pub file: Seq<char>,
    pub parameters: Option<Seq<char>>,
    pub directory: Option<Seq<char>>,
    pub show: i32,
    pub keep_process: bool,
}

impl View for ShellLaunch {
    type V = ShellLaunchView;

    open spec fn view(&self) -> ShellLaunchView {
        ShellLaunchView {
            verb: self.verb@,
            file: self.file@,
            parameters: self.parameters.deep_view(),
            directory: self.directory.deep_view(),
            show: self.show,
            keep_process: self.keep_process,
        }
    }
}

/// The platform on which a launch takes place, which decides how a program
/// is started.
#[derive(Clone, Copy, Debug, PartialEq, Eq, Structural)]
pub enum Platform {
    /// The program is started directly.
    Unix,
    /// The program is opened through the shell.
    Windows,
}

/// What the caller is to do to start a process.
#[derive(Debug)]
pub enum LaunchPlan {
    /// Start the program of the command.
    Direct(Command),
    /// Make the request of the shell.
    Shell(ShellLaunch),
}

/// A `LaunchPlan` as plain text.
pub enum LaunchPlanView {
    Direct(CommandView),
    Shell(ShellLaunchView),
}

impl View for LaunchPlan {
    type V = LaunchPlanView;

    open spec fn view(&self) -> LaunchPlanView {
        match *self {
            LaunchPlan::Direct(command) => LaunchPlanView::Direct(command@),
            LaunchPlan::Shell(request) => LaunchPlanView::Shell(request@),
        }
    }
}

/// Why a launch failed.
#[derive(Clone, Copy, Debug, PartialEq, Eq, Structural)]
pub enum LaunchError {
    /// Nothing to start was found under the path.
    NotFound,
    /// The caller may not start what the path names.
    PermissionDenied,
    /// The system had no room for one more process.
    ResourceExhausted,
    /// The request cannot be handed to the system as it is.
    InvalidInput,
    /// Any other refusal of the system.
    Other,
}

/// The text that an optional string holds.
pub open spec fn text_of(s: Option<&str>) -> Option<Seq<char>> {
    match s {
        Some(t) => Some(t@),
        None => None,
    }
}

} // verus!
