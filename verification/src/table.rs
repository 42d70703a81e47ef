//! The process table as one snapshot of it shows it, and the questions that
//! are asked of a snapshot.
//!
//! A snapshot is a list of entries in the order in which the system gave
//! them. It is read once and never refreshed: each question is answered from
//! the list alone.

use crate::signal::{signal_from_int, signal_of};
use crate::text::{chars_of, contains_chars, is_substring};
use sysinfo::Signal;
use vstd::prelude::*;

verus! {

/// One process of a snapshot.
#[derive(Debug)]
pub struct ProcessEntry {
    pub pid: u32,
    pub name: String,
    pub parent: Option<u32>,
}

/// A `ProcessEntry` with its name as plain text.
pub struct ProcessEntryView {
    pub pid: u32,
    pub name: Seq<char>,
    pub parent: Option<u32>,
}

impl View for ProcessEntry {
    type V = ProcessEntryView;

    open spec fn view(&self) -> ProcessEntryView {
        ProcessEntryView { pid: self.pid, name: self.name@, parent: self.parent }
    }
}

impl DeepView for ProcessEntry {
    type V = ProcessEntryView;

    open spec fn deep_view(&self) -> ProcessEntryView {
        self@
    }
}

/// Whether some entry of `table` has the identifier `pid`.
pub open spec fn has_pid(table: Seq<ProcessEntryView>, pid: u32) -> bool {
    exists|at: int| 0 <= at < table.len() && (#[trigger] table[at]).pid == pid
}

/// Whether the entry at `at` is the first of `table` with the identifier `pid`.
pub open spec fn is_first_with_pid(table: Seq<ProcessEntryView>, pid: u32, at: int) -> bool {
    &&& 0 <= at < table.len()
    &&& table[at].pid == pid
    &&& forall|before: int| 0 <= before < at ==> (#[trigger] table[before]).pid != pid
}

/// The entry of `pid` in `table`: the first that has this identifier.
pub open spec fn lookup(table: Seq<ProcessEntryView>, pid: u32) -> Option<ProcessEntryView> {
    if has_pid(table, pid) {
        Some(table[choose|at: int| is_first_with_pid(table, pid, at)])
    } else {
        None
    }
}

/// The identifiers of the entries whose name holds `needle`, in the order of
/// the table.
pub open spec fn pids_named_like(table: Seq<ProcessEntryView>, needle: Seq<char>) -> Seq<u32>
    decreases table.len(),
{
    if table.len() == 0 {
        Seq::empty()
    } else {
        let before = pids_named_like(table.drop_last(), needle);
        if is_substring(needle, table.last().name) {
            before.push(table.last().pid)
        } else {
            before
        }
    }
}

/// For each identifier of `recorded` that `table` knows, in the order of
/// `recorded`: the name under which the table has it, and the identifier.
/// Identifiers that the table does not know are passed over.
pub open spec fn live_pairs(recorded: Seq<u32>, table: Seq<ProcessEntryView>) -> Seq<
    (Seq<char>, u32),
>
    decreases recorded.len(),
{
    if recorded.len() == 0 {
        Seq::empty()
    } else {
        let before = live_pairs(recorded.drop_last(), table);
        match lookup(table, recorded.last()) {
            Some(entry) => before.push((entry.name, recorded.last())),
            None => before,
        }
    }
}

/// Whether `table` shows `pid` as a child of `parent`.
pub open spec fn is_child(table: Seq<ProcessEntryView>, pid: u32, parent: u32) -> bool {
    match lookup(table, pid) {
        Some(entry) => entry.parent == Some(parent),
        None => false,
    }
}

/// The signal that a termination request is to deliver: none where `table`
/// does not know `pid`, the signal of `code` where it does.
pub open spec fn termination_signal(table: Seq<ProcessEntryView>, pid: u32, code: int) -> Option<
    Signal,
> {
    if has_pid(table, pid) {
        Some(signal_of(code))
    } else {
        None
    }
}

/// The first entry with an identifier is the one that `lookup` gives.
pub proof fn lemma_lookup_is_first(table: Seq<ProcessEntryView>, pid: u32, at: int)
    requires
        is_first_with_pid(table, pid, at),
    ensures
        has_pid(table, pid),
        lookup(table, pid) == Some(table[at]),
{
    let chosen = choose|at: int| is_first_with_pid(table, pid, at);
    assert(is_first_with_pid(table, pid, chosen));
    if chosen < at {
        assert(table[chosen].pid != pid);
    }
    if at < chosen {
        assert(table[at].pid != pid);
    }
}

/// An identifier is among `pids_named_like` exactly if it belongs to an entry
/// whose name holds the needle: every such process is listed, and no other.
pub proof fn lemma_named_like_is_exact(table: Seq<ProcessEntryView>, needle: Seq<char>, pid: u32)
    ensures
        pids_named_like(table, needle).contains(pid) <==> exists|at: int|
            0 <= at < table.len() && (#[trigger] table[at]).pid == pid && is_substring(
                needle,
                table[at].name,
            ),
    decreases table.len(),
{
    let listed = pids_named_like(table, needle);
    let owned = exists|at: int|
        0 <= at < table.len() && (#[trigger] table[at]).pid == pid && is_substring(
            needle,
            table[at].name,
        );
    if table.len() > 0 {
        let front = table.drop_last();
        let before = pids_named_like(front, needle);
        lemma_named_like_is_exact(front, needle, pid);
        let last = table.len() - 1;
        if listed.contains(pid) {
            let k = choose|k: int| 0 <= k < listed.len() && listed[k] == pid;
            if k < before.len() {
                assert(before[k] == pid);
                assert(before.contains(pid));
                let at = choose|at: int|
                    0 <= at < front.len() && (#[trigger] front[at]).pid == pid && is_substring(
                        needle,
                        front[at].name,
                    );
                assert(table[at] == front[at]);
            } else {
                assert(table[last].pid == pid);
            }
            assert(owned);
        }
        if owned {
            let at = choose|at: int|
                0 <= at < table.len() && (#[trigger] table[at]).pid == pid && is_substring(
                    needle,
                    table[at].name,
                );
            if at < last {
                assert(front[at] == table[at]);
                assert(before.contains(pid));
                let k = choose|k: int| 0 <= k < before.len() && before[k] == pid;
                assert(listed[k] == pid);
            } else {
                assert(listed[listed.len() - 1] == pid);
            }
            assert(listed.contains(pid));
        }
    }
}

/// Finds the first entry of `pid`.
pub fn position_of(table: &Vec<ProcessEntry>, pid: u32) -> (found: Option<usize>)
    ensures
        match found {
            Some(at) => is_first_with_pid(table.deep_view(), pid, at as int),
            None => !has_pid(table.deep_view(), pid),
        },
{
    let mut at: usize = 0;
    while at < table.len()
        invariant
            at <= table.len(),
            forall|before: int|
                0 <= before < at ==> (#[trigger] table.deep_view()[before]).pid != pid,
        decreases table.len() - at,
    {
        if table[at].pid == pid {
            return Some(at);
        }
        at += 1;
    }
    None
}

/// Whether the snapshot knows `pid`.
pub fn contains_pid(table: &Vec<ProcessEntry>, pid: u32) -> (known: bool)
    ensures
        known == has_pid(table.deep_view(), pid),
{
    position_of(table, pid).is_some()
}

/// The identifiers of the processes whose name holds `needle`, in the order
/// of the snapshot. Names are compared as they are: case matters.
pub fn find_by_name_substring(table: &Vec<ProcessEntry>, needle: &str) -> (pids: Vec<u32>)
    ensures
        pids@ == pids_named_like(table.deep_view(), needle@),
        forall|pid: u32|
            pids@.contains(pid) <==> exists|at: int|
                0 <= at < table.len() && (#[trigger] table.deep_view()[at]).pid == pid
                    && is_substring(needle@, table.deep_view()[at].name),
{
    let needle_chars = chars_of(needle);
    let mut pids: Vec<u32> = Vec::new();
    let mut at: usize = 0;
    while at < table.len()
        invariant
            at <= table.len(),
            needle_chars@ == needle@,
            pids@ == pids_named_like(table.deep_view().take(at as int), needle@),
        decreases table.len() - at,
    {
        assert(table.deep_view().take(at + 1).drop_last() =~= table.deep_view().take(at as int));
        let name_chars = chars_of(table[at].name.as_str());
        if contains_chars(&name_chars, &needle_chars) {
            pids.push(table[at].pid);
        }
        at += 1;
    }
    proof {
        assert(table.deep_view().take(at as int) =~= table.deep_view());
        assert forall|pid: u32|
            pids@.contains(pid) <==> exists|at: int|
                0 <= at < table.len() && (#[trigger] table.deep_view()[at]).pid == pid
                    && is_substring(needle@, table.deep_view()[at].name) by {
            lemma_named_like_is_exact(table.deep_view(), needle@, pid);
        }
    }
    pids
}

/// The recorded processes that the snapshot still knows, each with the name
/// that the snapshot has for it, in the order in which they are recorded.
pub fn live_named_pairs(recorded: &Vec<u32>, table: &Vec<ProcessEntry>) -> (pairs: Vec<
    (String, u32),
>)
    ensures
        pairs.deep_view() == live_pairs(recorded@, table.deep_view()),
{
    let mut pairs: Vec<(String, u32)> = Vec::new();
    let mut k: usize = 0;
    while k < recorded.len()
        invariant
            k <= recorded.len(),
            pairs.deep_view() == live_pairs(recorded@.take(k as int), table.deep_view()),
        decreases recorded.len() - k,
    {
        assert(recorded@.take(k + 1).drop_last() =~= recorded@.take(k as int));
        let pid = recorded[k];
        match position_of(table, pid) {
            Some(at) => {
                proof {
                    lemma_lookup_is_first(table.deep_view(), pid, at as int);
                }
                let name = table[at].name.clone();
                pairs.push((name, pid));
            },
            None => {},
        }
        k += 1;
    }
    assert(recorded@.take(k as int) =~= recorded@);
    pairs
}

/// Whether the snapshot shows `pid` as a child of this process, whose own
/// identifier is `own` if it could be told. The answer is no where the
/// snapshot does not know `pid`, where `pid` has no parent, and where this
/// process could not tell its own identifier.
pub fn is_child_of_self(table: &Vec<ProcessEntry>, pid: u32, own: Option<u32>) -> (child: bool)
    ensures
        child == match own {
            Some(parent) => is_child(table.deep_view(), pid, parent),
            None => false,
        },
{
    let parent = match own {
        Some(parent) => parent,
        None => {
            return false;
        },
    };
    match position_of(table, pid) {
        Some(at) => {
            proof {
                lemma_lookup_is_first(table.deep_view(), pid, at as int);
            }
            match table[at].parent {
                Some(shown) => shown == parent,
                None => false,
            }
        },
        None => false,
    }
}

/// Decides what a termination request delivers: nothing where the snapshot
/// does not know `pid`, else the signal that `code` stands for.
pub fn plan_termination(table: &Vec<ProcessEntry>, pid: u32, code: i64) -> (signal: Option<Signal>)
    ensures
        signal == termination_signal(table.deep_view(), pid, code as int),
        !has_pid(table.deep_view(), pid) ==> signal is None,
{
    if contains_pid(table, pid) {
        Some(signal_from_int(code))
    } else {
        None
    }
}

} // verus!
