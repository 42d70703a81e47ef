//! Starting, watching and ending processes, and moving their windows.
//!
//! The library keeps a registry of the processes that its user has started,
//! answers questions about the system's process table, tells the signal that
//! a code stands for, and decides what is asked of the window system to
//! bring the windows of a process to the front or to the back. Processes are
//! started and windows are moved by the caller, who is told what to do and
//! reports what came of it.
//!
//! The functions of this file that read the process table read it anew at
//! every call. What they answer depends on the processes that exist at that
//! moment, so their contracts say only what holds of every answer; what is
//! answered of a given table is said by the functions of `table`, which they
//! call.

pub mod host;
pub mod launch;
pub mod linux;
pub mod registry;
pub mod signal;
pub mod table;
pub mod text;
pub mod unix;
pub mod walk;
pub mod windows;

use crate::host::{current_pid, entries, send_signal, take_snapshot};
use crate::launch::{text_of, LaunchError, LaunchPlan, LaunchPlanView, Platform};
use crate::registry::Registry;
use crate::signal::DEFAULT_SIGNAL_CODE;
use crate::table::{
    contains_pid, find_by_name_substring, has_pid, is_child_of_self, live_named_pairs, live_pairs,
    lookup, pids_named_like, plan_termination, ProcessEntry, ProcessEntryView,
};
use crate::unix::command_for;
use crate::windows::{holds_nul, option_holds_nul, shell_launch_for};
use sysinfo::{Signal, System};
use vstd::prelude::*;

verus! {

/// What is reported in place of this process's identifier where it cannot be
/// told.
pub const NO_PROCESS: i64 = -1;

/// Whether the integer `id` can be the identifier of a process.
pub open spec fn is_process_id(id: int) -> bool {
    0 <= id <= u32::MAX
}

/// What a launch of `path` asks of the system on `platform`. An empty path
/// names nothing that could be started.
pub open spec fn launch_plan_for(
    platform: Platform,
    path: Seq<char>,
    params: Option<Seq<char>>,
    working_directory: Option<Seq<char>>,
) -> Result<LaunchPlanView, LaunchError> {
    if path.len() == 0 {
        Err(LaunchError::NotFound)
    } else {
        match platform {
            Platform::Unix => Ok(LaunchPlanView::Direct(command_for(path, params, working_directory))),
            Platform::Windows => if holds_nul(path) || option_holds_nul(params) || option_holds_nul(
                working_directory,
            ) {
                Err(LaunchError::InvalidInput)
            } else {
                Ok(LaunchPlanView::Shell(shell_launch_for(path, params, working_directory)))
            },
        }
    }
}

/// A launch plan, or the refusal to make one, as plain text.
pub open spec fn plan_view(plan: Result<LaunchPlan, LaunchError>) -> Result<
    LaunchPlanView,
    LaunchError,
> {
    match plan {
        Ok(p) => Ok(p@),
        Err(error) => Err(error),
    }
}

/// The registry after a launch that ended with `launched`: a new process is
/// added behind those recorded, a failure changes nothing.
pub open spec fn after_launch(recorded: Seq<u32>, launched: Result<u32, LaunchError>) -> Seq<u32> {
    match launched {
        Ok(pid) => recorded.push(pid),
        Err(_) => recorded,
    }
}

/// The registry after shutdown: nothing is left, whatever it held.
pub open spec fn after_shutdown(recorded: Seq<u32>) -> Seq<u32> {
    Seq::empty()
}

/// The code that a termination request carries: the one it names, or the
/// default, which stands for the forceful kill.
pub open spec fn effective_code(exit_code: Option<i64>) -> i64 {
    match exit_code {
        Some(code) => code,
        None => DEFAULT_SIGNAL_CODE,
    }
}

/// Shutting down twice leaves what shutting down once leaves: a registry that
/// is already empty is shut down like any other.
pub proof fn lemma_shutdown_is_idempotent(recorded: Seq<u32>)
    ensures
        after_shutdown(after_shutdown(recorded)) == after_shutdown(recorded),
        after_shutdown(Seq::empty()) == Seq::<u32>::empty(),
{
}

/// A process that was started is listed behind those recorded before it for
/// as long as the process table knows it, and is passed over once the table
/// does not. A launch that failed changes nothing in what is listed.
pub proof fn lemma_started_process_is_listed(
    recorded: Seq<u32>,
    launched: Result<u32, LaunchError>,
    table: Seq<ProcessEntryView>,
)
    ensures
        live_pairs(after_launch(recorded, launched), table) == match launched {
            Ok(pid) => match lookup(table, pid) {
                Some(entry) => live_pairs(recorded, table).push((entry.name, pid)),
                None => live_pairs(recorded, table),
            },
            Err(_) => live_pairs(recorded, table),
        },
{
    match launched {
        Ok(pid) => {
            assert(recorded.push(pid).drop_last() =~= recorded);
        },
        Err(_) => {},
    }
}

/// The process identifier that the integer `id` is, if it is one.
pub fn process_id(id: i64) -> (pid: Option<u32>)
    ensures
        pid == if is_process_id(id as int) {
            Some(id as u32)
        } else {
            None
        },
{
    if 0 <= id && id <= 0xFFFF_FFFF {
        Some(id as u32)
    } else {
        None
    }
}

/// What is reported of a request that was made of a process or a window, if
/// it was found: the answer to the request where there is one, and failure
/// where the process or window was not there to be asked.
pub fn found_and_done(answer: Option<bool>) -> (done: bool)
    ensures
        done == (answer == Some(true)),
{
    match answer {
        Some(done) => done,
        None => false,
    }
}

/// The code of a termination request, the default where it names none.
pub fn code_or_default(exit_code: Option<i64>) -> (code: i64)
    ensures
        code == effective_code(exit_code),
{
    match exit_code {
        Some(code) => code,
        None => DEFAULT_SIGNAL_CODE,
    }
}

/// This process's identifier as an integer, `NO_PROCESS` where it could not
/// be told.
pub fn pid_or_sentinel(own: Option<u32>) -> (id: i64)
    ensures
        id == match own {
            Some(pid) => pid as i64,
            None => NO_PROCESS,
        },
{
    match own {
        Some(pid) => pid as i64,
        None => NO_PROCESS,
    }
}

/// Prepares the launch of the program at `path`, with the arguments or
/// parameters of `params`, in `working_directory`. The result is what the
/// caller is to ask of the system, or the reason why nothing can be asked.
pub fn spawn_process(
    platform: Platform,
    path: &str,
    params: Option<&str>,
    working_directory: Option<&str>,
) -> (plan: Result<LaunchPlan, LaunchError>)
    ensures
        plan_view(plan) == launch_plan_for(
            platform,
            path@,
            text_of(params),
            text_of(working_directory),
        ),
{
    if path.is_empty() {
        return Err(LaunchError::NotFound);
    }
    match platform {
        Platform::Unix => Ok(
            LaunchPlan::Direct(crate::unix::spawn_process(path, params, working_directory)),
        ),
        Platform::Windows => match crate::windows::spawn_process(path, params, working_directory) {
            Ok(request) => Ok(LaunchPlan::Shell(request)),
            Err(error) => Err(error),
        },
    }
}

/// Takes note of how a launch ended. The identifier of a process that was
/// started is recorded; a failure is handed on as it is.
pub fn start_process(registry: &mut Registry, launched: Result<u32, LaunchError>) -> (reply: Result<
    u32,
    LaunchError,
>)
    ensures
        reply == launched,
        final(registry)@ == after_launch(old(registry)@, launched),
{
    match launched {
        Ok(pid) => {
            registry.record(pid);
            Ok(pid)
        },
        Err(error) => Err(error),
    }
}

/// Asks the system to deliver a signal to the process `pid`: the signal that
/// `exit_code` stands for, or the forceful kill where none is given. The
/// process is looked up in a fresh reading of the process table, and the
/// signal is only sent if it is there. The result is the system's answer to
/// the request, and failure where no request was made. An integer that is no
/// process identifier names no process.
pub fn terminate_process(pid: i64, exit_code: Option<i64>) -> (done: bool)
    ensures
        !is_process_id(pid as int) ==> !done,
{
    let target = match process_id(pid) {
        Some(target) => target,
        None => {
            return false;
        },
    };
    let code = code_or_default(exit_code);
    let system = take_snapshot();
    let table = entries(&system);
    terminate_in(&system, &table, target, code)
}

/// Terminates `pid` as `terminate_process` does, given the reading of the
/// process table and the list of its processes. Nothing is asked of the
/// system, and the result is failure, where the list does not hold `pid`.
fn terminate_in(system: &System, table: &Vec<ProcessEntry>, pid: u32, code: i64) -> (done: bool)
    ensures
        !has_pid(table.deep_view(), pid) ==> !done,
{
    match plan_termination(table, pid, code) {
        Some(signal) => found_and_done(send_signal(system, pid, signal)),
        None => false,
    }
}

/// The identifiers of the processes whose name holds `name`, from a fresh
/// reading of the process table and in its order.
pub fn find_process_pids(name: &str) -> (pids: Vec<u32>)
    ensures
        exists|table: Seq<ProcessEntryView>| pids@ == #[trigger] pids_named_like(table, name@),
{
    let system = take_snapshot();
    let table = entries(&system);
    let pids = find_by_name_substring(&table, name);
    assert(pids@ == pids_named_like(table.deep_view(), name@));
    pids
}

/// Whether a fresh reading of the process table knows the process `pid`. An
/// integer that is no process identifier names no process.
pub fn is_process_running(pid: i64) -> (running: bool)
    ensures
        !is_process_id(pid as int) ==> !running,
{
    match process_id(pid) {
        Some(target) => {
            let system = take_snapshot();
            let table = entries(&system);
            contains_pid(&table, target)
        },
        None => false,
    }
}

/// The recorded processes that a fresh reading of the process table still
/// knows, each with its name, in the order in which they were recorded.
pub fn get_running_process_pids(registry: &Registry) -> (pairs: Vec<(String, u32)>)
    ensures
        exists|table: Seq<ProcessEntryView>|
            pairs.deep_view() == #[trigger] live_pairs(registry@, table),
{
    let system = take_snapshot();
    let table = entries(&system);
    let recorded = registry.list();
    let pairs = live_named_pairs(&recorded, &table);
    assert(pairs.deep_view() == live_pairs(registry@, table.deep_view()));
    pairs
}

/// Whether a fresh reading of the process table shows the process `pid` as
/// a child of this process. An integer that is no process identifier names
/// no process.
pub fn is_process_gmod_child(pid: i64) -> (child: bool)
    ensures
        !is_process_id(pid as int) ==> !child,
{
    match process_id(pid) {
        Some(target) => {
            let system = take_snapshot();
            let own = current_pid();
            let table = entries(&system);
            is_child_of_self(&table, target, own)
        },
        None => false,
    }
}

/// This process's identifier, `NO_PROCESS` where the platform cannot tell it.
pub fn get_gmod_pid() -> (id: i64)
    ensures
        id == NO_PROCESS || is_process_id(id as int),
{
    pid_or_sentinel(current_pid())
}

/// Ends what was started: asks the system to kill every recorded process
/// that a fresh reading of the process table still knows, whatever it
/// answers, and empties the registry.
pub fn shutdown(registry: &mut Registry)
    ensures
        final(registry)@ == after_shutdown(old(registry)@),
{
    let system = take_snapshot();
    let recorded = registry.list();
    let mut k: usize = 0;
    while k < recorded.len()
        invariant
            k <= recorded.len(),
        decreases recorded.len() - k,
    {
        let _ = send_signal(&system, recorded[k], Signal::Kill);
        k += 1;
    }
    registry.clear();
}

} // verus!
