//! Launching through the shell, and the main window of a process among the
//! top-level windows that the system enumerates.
//!
//! The system hands the top-level windows to a callback one by one and goes
//! on until the callback says stop. The callback keeps the first window that
//! belongs to the wanted process and is a main window: one that no other
//! window owns and that is visible.

use crate::launch::{text_of, LaunchError, ShellLaunch, ShellLaunchView};
use crate::text::chars_of;
use vstd::prelude::*;

verus! {

/// The way in which a newly opened window is shown: in its present size and
/// place, and active.
pub const SHOW: i32 = 5;

/// A top-level window as the enumeration presents it.
#[derive(Clone, Copy, Debug, PartialEq, Eq, Structural)]
pub struct TopLevelWindow {
    /// The window's handle.
    pub handle: usize,
    /// The process that made the window.
    pub process_id: u32,
    /// The handle of the window that owns this one, 0 where none does.
    pub owner: usize,
    /// Whether the window is visible.
    pub visible: bool,
}

/// What the enumeration callback carries from one window to the next.
#[derive(Clone, Copy, Debug, PartialEq, Eq, Structural)]
pub struct WindowHandleData {
    /// The process whose main window is wanted.
    pub process_id: u32,
    /// The window that was found, if one was.
    pub window_handle: Option<usize>,
}

/// Where a window is put among the others.
#[derive(Clone, Copy, Debug, PartialEq, Eq, Structural)]
pub enum Placement {
    /// Above all other windows.
    Top,
    /// Below all other windows.
    Bottom,
}

/// What is asked of the system to move a window among the others.
#[derive(Clone, Copy, Debug, PartialEq, Eq, Structural)]
pub struct Reposition {
    /// Where the window goes.
    pub placement: Placement,
    /// Whether the window stays where it is on the screen.
    pub keep_position: bool,
    /// Whether the window keeps its size.
    pub keep_size: bool,
    /// Whether the window is afterwards shown in its normal state, which
    /// brings it back if it was minimized.
    pub restore: bool,
}

/// Whether a window is a main window: no window owns it, and it is visible.
pub open spec fn main_window(owner: usize, visible: bool) -> bool {
    owner == 0 && visible
}

/// Whether `window` is what a search for the main window of `pid` looks for.
pub open spec fn qualifies(window: TopLevelWindow, pid: u32) -> bool {
    window.process_id == pid && main_window(window.owner, window.visible)
}

/// Whether the window at `at` is the first of `windows` that qualifies.
pub open spec fn is_first_qualifying(windows: Seq<TopLevelWindow>, pid: u32, at: int) -> bool {
    &&& 0 <= at < windows.len()
    &&& qualifies(windows[at], pid)
    &&& forall|before: int| 0 <= before < at ==> !qualifies(#[trigger] windows[before], pid)
}

/// The main window of `pid` among `windows`, which are in the order of the
/// enumeration: the first that qualifies, if any does.
pub open spec fn main_window_of(windows: Seq<TopLevelWindow>, pid: u32) -> Option<usize>
    decreases windows.len(),
{
    if windows.len() == 0 {
        None
    } else if qualifies(windows[0], pid) {
        Some(windows[0].handle)
    } else {
        main_window_of(windows.subrange(1, windows.len() as int), pid)
    }
}

/// What the callback carries after it has seen `window`, and whether the
/// enumeration goes on.
pub open spec fn after_window(data: WindowHandleData, window: TopLevelWindow) -> (
    WindowHandleData,
    bool,
) {
    if qualifies(window, data.process_id) {
        (
            WindowHandleData { process_id: data.process_id, window_handle: Some(window.handle) },
            false,
        )
    } else {
        (data, true)
    }
}

/// Whether `text` holds the character with code 0, which no string that is
/// handed to the shell may hold.
pub open spec fn holds_nul(text: Seq<char>) -> bool {
    text.contains('\0')
}

/// Whether the optional `text` is there and holds the character with code 0.
pub open spec fn option_holds_nul(text: Option<Seq<char>>) -> bool {
    match text {
        Some(t) => holds_nul(t),
        None => false,
    }
}

/// The request that opens `path` through the shell: the verb is `open`, the
/// parameters go along in one piece, the window is shown, and the handle of
/// the new process is kept so that its identifier can be read.
pub open spec fn shell_launch_for(
    path: Seq<char>,
    params: Option<Seq<char>>,
    working_directory: Option<Seq<char>>,
) -> ShellLaunchView {
    ShellLaunchView {
        verb: "open"@,
        file: path,
        parameters: params,
        directory: working_directory,
        show: SHOW,
        keep_process: true,
    }
}

/// Searches `text` for the character with code 0.
fn has_nul(text: &str) -> (found: bool)
    ensures
        found == holds_nul(text@),
{
    let chars = chars_of(text);
    let mut k: usize = 0;
    while k < chars.len()
        invariant
            k <= chars.len(),
            chars@ == text@,
            forall|j: int| 0 <= j < k ==> chars@[j] != '\0',
        decreases chars.len() - k,
    {
        if chars[k] == '\0' {
            return true;
        }
        k += 1;
    }
    false
}

/// The text of an optional string, as a string of its own.
fn owned(text: Option<&str>) -> (copy: Option<String>)
    ensures
        copy.deep_view() == text_of(text),
{
    match text {
        Some(t) => Some(String::from_str(t)),
        None => None,
    }
}

/// Tells a main window from the others.
pub fn is_main_window(owner: usize, visible: bool) -> (main: bool)
    ensures
        main == main_window(owner, visible),
{
    owner == 0 && visible
}

impl WindowHandleData {
    /// The state in which a search for the main window of `pid` begins.
    pub fn new(pid: u32) -> (data: WindowHandleData)
        ensures
            data == (WindowHandleData { process_id: pid, window_handle: None }),
    {
        WindowHandleData { process_id: pid, window_handle: None }
    }
}

/// Takes one window of the enumeration. The result says whether the
/// enumeration goes on: it stops at the first window that qualifies, which is
/// then kept in `data`; any other window leaves `data` as it was.
pub fn enum_windows_callback(data: &mut WindowHandleData, window: TopLevelWindow) -> (go_on: bool)
    ensures
        (*final(data), go_on) == after_window(*old(data), window),
{
    if data.process_id != window.process_id || !is_main_window(window.owner, window.visible) {
        return true;
    }
    data.window_handle = Some(window.handle);
    false
}

/// Finds the main window of `pid` among `windows`, handing them to the
/// callback in their order until it says stop.
pub fn find_main_window(pid: u32, windows: &Vec<TopLevelWindow>) -> (found: Option<usize>)
    ensures
        found == main_window_of(windows@, pid),
        match found {
            Some(handle) => exists|at: int|
                is_first_qualifying(windows@, pid, at) && windows@[at].handle == handle,
            None => forall|at: int| 0 <= at < windows.len() ==> !qualifies(windows@[at], pid),
        },
{
    let mut data = WindowHandleData::new(pid);
    let mut at: usize = 0;
    while at < windows.len()
        invariant
            at <= windows.len(),
            data == (WindowHandleData { process_id: pid, window_handle: None }),
            forall|before: int| 0 <= before < at ==> !qualifies(#[trigger] windows@[before], pid),
        decreases windows.len() - at,
    {
        if !enum_windows_callback(&mut data, windows[at]) {
            proof {
                lemma_first_qualifying_is_main(windows@, pid, at as int);
            }
            return data.window_handle;
        }
        at += 1;
    }
    proof {
        lemma_none_qualifying_no_main(windows@, pid);
    }
    None
}

/// The first window that qualifies is the main window.
pub proof fn lemma_first_qualifying_is_main(windows: Seq<TopLevelWindow>, pid: u32, at: int)
    requires
        is_first_qualifying(windows, pid, at),
    ensures
        main_window_of(windows, pid) == Some(windows[at].handle),
    decreases windows.len(),
{
    if at > 0 {
        let rest = windows.subrange(1, windows.len() as int);
        assert(!qualifies(windows[0], pid));
        assert forall|before: int| 0 <= before < at - 1 implies !qualifies(
            #[trigger] rest[before],
            pid,
        ) by {
            assert(rest[before] == windows[before + 1]);
        }
        assert(rest[at - 1] == windows[at]);
        lemma_first_qualifying_is_main(rest, pid, at - 1);
    }
}

/// Where no window qualifies, there is no main window.
pub proof fn lemma_none_qualifying_no_main(windows: Seq<TopLevelWindow>, pid: u32)
    requires
        forall|at: int| 0 <= at < windows.len() ==> !qualifies(#[trigger] windows[at], pid),
    ensures
        main_window_of(windows, pid) is None,
    decreases windows.len(),
{
    if windows.len() > 0 {
        let rest = windows.subrange(1, windows.len() as int);
        assert forall|at: int| 0 <= at < rest.len() implies !qualifies(#[trigger] rest[at], pid) by {
            assert(rest[at] == windows[at + 1]);
        }
        lemma_none_qualifying_no_main(rest, pid);
    }
}

/// What is asked of the system to bring a window to the front: it goes above
/// all others without being moved or resized, and is then restored in case it
/// was minimized.
pub fn front_request() -> (request: Reposition)
    ensures
        request == (Reposition {
            placement: Placement::Top,
            keep_position: true,
            keep_size: true,
            restore: true,
        }),
{
    Reposition { placement: Placement::Top, keep_position: true, keep_size: true, restore: true }
}

/// What is asked of the system to send a window to the back: it goes below
/// all others without being moved or resized.
pub fn back_request() -> (request: Reposition)
    ensures
        request == (Reposition {
            placement: Placement::Bottom,
            keep_position: true,
            keep_size: true,
            restore: false,
        }),
{
    Reposition {
        placement: Placement::Bottom,
        keep_position: true,
        keep_size: true,
        restore: false,
    }
}

/// Whether bringing a window to the front worked, given what the system
/// answered to the placing and to the restoring, 0 standing for failure. It
/// failed only if both did.
pub fn bring_to_front(placed: i32, restored: i32) -> (ok: bool)
    ensures
        ok == !(placed == 0 && restored == 0),
{
    !(placed == 0 && restored == 0)
}

/// Whether sending a window to the back worked, given what the system
/// answered to the placing: it always counts as done.
pub fn bring_to_back(placed: i32) -> (ok: bool)
    ensures
        ok,
{
    true
}

/// Prepares the launch of `path` through the shell: the request that the
/// caller is to make. A string that holds the character with code 0 cannot
/// be handed to the shell, so the launch is refused if the path, the
/// parameters or the working directory holds one.
pub fn spawn_process(path: &str, params: Option<&str>, working_directory: Option<&str>) -> (request:
    Result<ShellLaunch, LaunchError>)
    ensures
        request is Err <==> holds_nul(path@) || option_holds_nul(text_of(params))
            || option_holds_nul(text_of(working_directory)),
        request matches Err(error) ==> error == LaunchError::InvalidInput,
        request matches Ok(launch) ==> launch@ == shell_launch_for(
            path@,
            text_of(params),
            text_of(working_directory),
        ),
{
    if has_nul(path) {
        return Err(LaunchError::InvalidInput);
    }
    if let Some(text) = params {
        if has_nul(text) {
            return Err(LaunchError::InvalidInput);
        }
    }
    if let Some(text) = working_directory {
        if has_nul(text) {
            return Err(LaunchError::InvalidInput);
        }
    }
    Ok(
        ShellLaunch {
            verb: String::from_str("open"),
            file: String::from_str(path),
            parameters: owned(params),
            directory: owned(working_directory),
            show: SHOW,
            keep_process: true,
        },
    )
}

} // verus!
