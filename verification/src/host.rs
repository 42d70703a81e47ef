//! The system's process table and signals, reached through `sysinfo`.
//!
//! Nothing in this file is proved: each function makes one request of the
//! system and hands back what came, as plain values. What a request returns
//! depends on the processes that exist when it is made, so no function here
//! promises anything of its result.

use crate::table::ProcessEntry;
use sysinfo::{ProcessExt, Signal, System, SystemExt};
use vstd::prelude::*;

verus! {

/// `sysinfo::System`, which here holds one reading of the process table. It
/// is carried from the function that reads the table to those that ask it; the
/// library never looks inside.
#[verifier::external_type_specification]
#[verifier::external_body]
pub struct ExSystem(sysinfo::System);

/// Reads the process table once: `SystemExt::new_with_specifics`, called
/// with `RefreshKind::new().with_processes()`. Nothing is claimed of the
/// reading.
#[verifier::external_body]
pub(crate) fn take_snapshot() -> (system: System) {
    System::new_with_specifics(sysinfo::RefreshKind::new().with_processes())
}

/// Lists the processes of a reading: `SystemExt::get_processes`, each process
/// given by the identifier it is filed under, `ProcessExt::name` and
/// `ProcessExt::parent`. The order is that in which the reading hands them
/// out. Nothing is claimed of the list.
#[verifier::external_body]
pub(crate) fn entries(system: &System) -> (table: Vec<ProcessEntry>) {
    let mut table = Vec::new();
    for (pid, process) in system.get_processes() {
        table.push(
            ProcessEntry {
                pid: *pid as u32,
                name: process.name().to_string(),
                parent: process.parent().map(|parent| parent as u32),
            },
        );
    }
    table
}

/// Asks the system to deliver `signal` to the process that the reading has
/// under `pid`: `SystemExt::get_process`, then `ProcessExt::kill`. The result
/// is `None` where the reading has no such process, else what the system
/// answered. Nothing is claimed of either.
#[verifier::external_body]
pub(crate) fn send_signal(system: &System, pid: u32, signal: Signal) -> (delivered: Option<bool>) {
    system.get_process(pid as sysinfo::Pid).map(|process| process.kill(signal))
}

/// Asks for the identifier of the running process itself:
/// `sysinfo::get_current_pid`. The result is `None` where the platform cannot
/// tell. Nothing is claimed of it.
#[verifier::external_body]
pub(crate) fn current_pid() -> (own: Option<u32>) {
    sysinfo::get_current_pid().ok().map(|pid| pid as u32)
}

} // verus!
