//! Finding the windows of a process on an X display, and restacking them.
//!
//! The display is reached by the caller. A `Session` decides what is asked of
//! it: at every moment it holds one `Action` for the caller to perform, and
//! `Session::step` takes the display's answer and moves on to the next. A
//! session opens the display, resolves the atom of the property under which
//! a window names its process, walks the window tree from the root, restacks
//! each window that names the wanted process, closes the display, and ends
//! with its outcome.

use vstd::prelude::*;

verus! {

/// What the display answers when a request succeeded.
pub const SUCCEEDED: i32 = 1;

/// The window that stands for no window at all.
pub const NO_WINDOW: u64 = 0;

/// The atom that stands for no atom at all.
pub const NO_ATOM: u64 = 0;

/// Why the windows of a process could not be looked for.
#[derive(Clone, Copy, Debug, PartialEq, Eq, Structural)]
pub enum LocateError {
    /// No display could be reached.
    NoDisplay,
    /// The display does not know the property under which windows name their
    /// process.
    NoPidAtom,
}

/// Which way a window is restacked.
#[derive(Clone, Copy, Debug, PartialEq, Eq, Structural)]
pub enum Direction {
    /// To the top of the stack, with the input focus on the window.
    Raise,
    /// To the bottom of the stack, with the input focus on no window.
    Lower,
}

/// Where the input focus goes when the window that has it disappears.
#[derive(Clone, Copy, Debug, PartialEq, Eq, Structural)]
pub enum RevertTo {
    /// Nowhere.
    Nothing,
    /// To the root window under the pointer.
    PointerRoot,
}

/// What a session is doing.
#[derive(Clone, Copy, Debug, PartialEq, Eq, Structural)]
pub enum Phase {
    /// Waiting for the display to be opened.
    Opening,
    /// Waiting for the atom of the process property.
    Resolving,
    /// Waiting for what the display knows of the window under inspection.
    Walking,
    /// Waiting for the restacking of one window.
    Restacking,
    /// Waiting for the display to be closed.
    Closing,
    /// Done.
    Finished,
}

/// What a session asks its caller to do.
#[derive(Clone, Copy, Debug, PartialEq, Eq)]
pub enum Action {
    /// Open the default display, and tell its root window.
    OpenDisplay,
    /// Look up the atom named `_NET_WM_PID`, without creating it.
    ResolveAtom,
    /// Read the first item of the cardinal property `atom` of `window`, and
    /// list the children of `window`.
    Inspect { window: u64, atom: u64 },
    /// Move `window` in the stack as `direction` says, then set the input
    /// focus to `focus`, to revert as `revert_to` says.
    Restack { window: u64, direction: Direction, focus: u64, revert_to: RevertTo },
    /// Close the display.
    CloseDisplay,
    /// Nothing more: this is the outcome.
    Finish { outcome: Result<bool, LocateError> },
}

/// What the caller reports of the action it performed.
#[derive(Debug, PartialEq, Eq)]
pub enum Event {
    /// The root window of the display that was opened, or nothing where none
    /// could be.
    Display { root: Option<u64> },
    /// The atom that was looked up, `NO_ATOM` where the display has none.
    Atom { atom: u64 },
    /// The property of the inspected window, where it has one, and its
    /// children in the order in which the display lists them.
    Window { property: Option<u64>, children: Vec<u64> },
    /// What the display answered to the move and to the change of focus.
    Restacked { moved: i32, focused: i32 },
    /// The display was closed.
    Closed,
}

/// An `Event` over mathematical sequences.
pub enum EventView {
    Display { root: Option<u64> },
    Atom { atom: u64 },
    Window { property: Option<u64>, children: Seq<u64> },
    Restacked { moved: i32, focused: i32 },
    Closed,
}

impl View for Event {
    type V = EventView;

    open spec fn view(&self) -> EventView {
        match *self {
            Event::Display { root } => EventView::Display { root },
            Event::Atom { atom } => EventView::Atom { atom },
            Event::Window { property, children } => EventView::Window {
                property,
                children: children@,
            },
            Event::Restacked { moved, focused } => EventView::Restacked { moved, focused },
            Event::Closed => EventView::Closed,
        }
    }
}

/// One run of the protocol, from the opening of the display to the outcome.
#[derive(Debug)]
pub struct Session {
    direction: Direction,
    pid: u64,
    phase: Phase,
    atom: u64,
    current: u64,
    stack: Vec<u64>,
    matches: Vec<u64>,
    position: usize,
    all_succeeded: bool,
    outcome: Result<bool, LocateError>,
}

/// The state of a session.
pub struct SessionView {
    /// Which way the windows are restacked.
    pub direction: Direction,
    /// The process whose windows are wanted.
    pub pid: u64,
    /// What the session is doing.
    pub phase: Phase,
    /// The atom of the process property, once it is resolved.
    pub atom: u64,
    /// The window that is being inspected or restacked.
    pub current: u64,
    /// The windows that are still to be inspected, the next one first.
    pub pending: Seq<u64>,
    /// The windows found so far, in the order in which they were found.
    pub matches: Seq<u64>,
    /// The place of `current` among `matches` while they are restacked.
    pub position: int,
    /// Whether every restacking so far succeeded.
    pub all_succeeded: bool,
    /// The outcome that is reported at the end.
    pub outcome: Result<bool, LocateError>,
}

impl View for Session {
    type V = SessionView;

    closed spec fn view(&self) -> SessionView {
        SessionView {
            direction: self.direction,
            pid: self.pid,
            phase: self.phase,
            atom: self.atom,
            current: self.current,
            pending: self.stack@.reverse(),
            matches: self.matches@,
            position: self.position as int,
            all_succeeded: self.all_succeeded,
            outcome: self.outcome,
        }
    }
}

/// The state in which a session for the windows of `pid` begins.
pub open spec fn initial(direction: Direction, pid: u64) -> SessionView {
    SessionView {
        direction,
        pid,
        phase: Phase::Opening,
        atom: NO_ATOM,
        current: NO_WINDOW,
        pending: Seq::empty(),
        matches: Seq::empty(),
        position: 0,
        all_succeeded: true,
        outcome: Ok(true),
    }
}

/// What holds of a session at every moment. Before the walk nothing is found
/// and nothing is pending; the walk needs the atom of the process property;
/// while windows are restacked the current window is one of those found, at
/// its place among them; and nothing is pending once the walk is over.
pub open spec fn well_formed(s: SessionView) -> bool {
    match s.phase {
        Phase::Opening | Phase::Resolving => s.matches.len() == 0 && s.pending.len() == 0,
        Phase::Walking => s.atom != NO_ATOM,
        Phase::Restacking => {
            &&& s.pending.len() == 0
            &&& 0 <= s.position < s.matches.len()
            &&& s.current == s.matches[s.position]
        },
        Phase::Closing | Phase::Finished => s.pending.len() == 0,
    }
}

/// The restacking of `window`. A window that is raised gets the input focus,
/// which reverts nowhere; when a window is lowered the focus goes to no
/// window, and reverts to the root under the pointer.
pub open spec fn restack_of(direction: Direction, window: u64) -> Action {
    match direction {
        Direction::Raise => Action::Restack {
            window,
            direction,
            focus: window,
            revert_to: RevertTo::Nothing,
        },
        Direction::Lower => Action::Restack {
            window,
            direction,
            focus: NO_WINDOW,
            revert_to: RevertTo::PointerRoot,
        },
    }
}

/// What a session in state `s` asks for.
pub open spec fn action_of(s: SessionView) -> Action {
    match s.phase {
        Phase::Opening => Action::OpenDisplay,
        Phase::Resolving => Action::ResolveAtom,
        Phase::Walking => Action::Inspect { window: s.current, atom: s.atom },
        Phase::Restacking => restack_of(s.direction, s.current),
        Phase::Closing => Action::CloseDisplay,
        Phase::Finished => Action::Finish { outcome: s.outcome },
    }
}

/// Whether a restacking succeeded: both the move and the change of focus
/// were answered with success.
pub open spec fn restack_succeeded(moved: i32, focused: i32) -> bool {
    moved == SUCCEEDED && focused == SUCCEEDED
}

/// The state in which the display is closed, to end with `outcome`.
pub open spec fn closing(s: SessionView, outcome: Result<bool, LocateError>) -> SessionView {
    SessionView { phase: Phase::Closing, outcome, ..s }
}

/// The state after the walk has ended with the windows `matches`: the first
/// of them is restacked next, or, where there is none, the display is closed
/// and the outcome is success.
pub open spec fn after_walk(s: SessionView, matches: Seq<u64>) -> SessionView {
    if matches.len() == 0 {
        SessionView {
            phase: Phase::Closing,
            current: NO_WINDOW,
            pending: Seq::empty(),
            matches,
            outcome: Ok(true),
            ..s
        }
    } else {
        SessionView {
            phase: Phase::Restacking,
            current: matches[0],
            pending: Seq::empty(),
            matches,
            position: 0,
            all_succeeded: true,
            ..s
        }
    }
}

/// The state in which the walk goes on with the windows of `queue`, the
/// first of them first, after `matches` have been found. Where `queue` is
/// empty the walk is over.
pub open spec fn walk_on(s: SessionView, matches: Seq<u64>, queue: Seq<u64>) -> SessionView {
    if queue.len() == 0 {
        after_walk(s, matches)
    } else {
        SessionView {
            current: queue[0],
            pending: queue.subrange(1, queue.len() as int),
            matches,
            ..s
        }
    }
}

/// The state after the window under inspection has shown `property` and
/// `children`. The window counts as found if its property is the wanted
/// process. Its children are inspected next, in their order, before the
/// windows that were pending.
pub open spec fn after_window(
    s: SessionView,
    property: Option<u64>,
    children: Seq<u64>,
) -> SessionView {
    let matches = if property == Some(s.pid) {
        s.matches.push(s.current)
    } else {
        s.matches
    };
    walk_on(s, matches, children + s.pending)
}

/// The state after the restacking of the current window was answered with
/// `moved` and `focused`: the next window that was found is restacked, or,
/// after the last, the display is closed, and the outcome is whether every
/// restacking succeeded.
pub open spec fn after_restack(s: SessionView, moved: i32, focused: i32) -> SessionView {
    let all_succeeded = s.all_succeeded && restack_succeeded(moved, focused);
    if 0 <= s.position && s.position + 1 < s.matches.len() {
        SessionView {
            current: s.matches[s.position + 1],
            position: s.position + 1,
            all_succeeded,
            ..s
        }
    } else {
        SessionView { phase: Phase::Closing, all_succeeded, outcome: Ok(all_succeeded), ..s }
    }
}

/// The state that follows `s` when the caller reports `event`. An event that
/// does not answer what `s` asks for changes nothing.
pub open spec fn next_state(s: SessionView, event: EventView) -> SessionView {
    match (s.phase, event) {
        (Phase::Opening, EventView::Display { root: Some(root) }) => SessionView {
            phase: Phase::Resolving,
            current: root,
            ..s
        },
        (Phase::Opening, EventView::Display { root: None }) => SessionView {
            phase: Phase::Finished,
            outcome: Err(LocateError::NoDisplay),
            ..s
        },
        (Phase::Resolving, EventView::Atom { atom }) => if atom == NO_ATOM {
            closing(s, Err(LocateError::NoPidAtom))
        } else {
            SessionView { phase: Phase::Walking, atom, ..s }
        },
        (Phase::Walking, EventView::Window { property, children }) => after_window(
            s,
            property,
            children,
        ),
        (Phase::Restacking, EventView::Restacked { moved, focused }) => after_restack(
            s,
            moved,
            focused,
        ),
        (Phase::Closing, EventView::Closed) => SessionView { phase: Phase::Finished, ..s },
        _ => s,
    }
}

/// A session is well formed when it begins and stays so whatever it is told.
pub proof fn lemma_sessions_stay_well_formed(s: SessionView, event: EventView)
    requires
        well_formed(s),
    ensures
        well_formed(initial(s.direction, s.pid)),
        well_formed(next_state(s, event)),
{
}

impl Session {
    /// A session that restacks the windows of `pid` as `direction` says.
    pub fn new(direction: Direction, pid: u64) -> (session: Session)
        ensures
            session@ == initial(direction, pid),
            well_formed(session@),
    {
        Session {
            direction,
            pid,
            phase: Phase::Opening,
            atom: NO_ATOM,
            current: NO_WINDOW,
            stack: Vec::new(),
            matches: Vec::new(),
            position: 0,
            all_succeeded: true,
            outcome: Ok(true),
        }
    }

    /// What the session asks for now.
    pub fn action(&self) -> (action: Action)
        ensures
            action == action_of(self@),
    {
        match self.phase {
            Phase::Opening => Action::OpenDisplay,
            Phase::Resolving => Action::ResolveAtom,
            Phase::Walking => Action::Inspect { window: self.current, atom: self.atom },
            Phase::Restacking => match self.direction {
                Direction::Raise => Action::Restack {
                    window: self.current,
                    direction: Direction::Raise,
                    focus: self.current,
                    revert_to: RevertTo::Nothing,
                },
                Direction::Lower => Action::Restack {
                    window: self.current,
                    direction: Direction::Lower,
                    focus: NO_WINDOW,
                    revert_to: RevertTo::PointerRoot,
                },
            },
            Phase::Closing => Action::CloseDisplay,
            Phase::Finished => Action::Finish { outcome: self.outcome },
        }
    }

    /// The outcome, once the session has finished.
    pub fn outcome(&self) -> (outcome: Option<Result<bool, LocateError>>)
        ensures
            outcome == if self@.phase == Phase::Finished {
                Some(self@.outcome)
            } else {
                None
            },
    {
        match self.phase {
            Phase::Finished => Some(self.outcome),
            _ => None,
        }
    }

    /// The windows found so far, in the order in which they were found.
    pub fn matches(&self) -> (found: &Vec<u64>)
        ensures
            found@ == self@.matches,
    {
        &self.matches
    }

    /// Ends the walk: goes on to the restacking of what was found.
    fn finish_walk(&mut self)
        requires
            old(self).stack@.len() == 0,
        ensures
            final(self)@ == after_walk(old(self)@, old(self)@.matches),
    {
        if self.matches.len() == 0 {
            self.phase = Phase::Closing;
            self.current = NO_WINDOW;
            self.outcome = Ok(true);
        } else {
            self.phase = Phase::Restacking;
            self.current = self.matches[0];
            self.position = 0;
            self.all_succeeded = true;
        }
    }

    /// Takes what the display knows of the window under inspection: its
    /// process property and its children. The window is kept if the property
    /// names the wanted process; its children are inspected before anything
    /// that was pending, first child first. When nothing is left to inspect,
    /// the walk is over. A session that is not walking stays as it is.
    pub fn search_windows(&mut self, property: Option<u64>, children: &Vec<u64>)
        ensures
            final(self)@ == next_state(
                old(self)@,
                EventView::Window { property, children: children@ },
            ),
            old(self)@.phase == Phase::Walking ==> final(self)@ == after_window(
                old(self)@,
                property,
                children@,
            ),
    {
        match self.phase {
            Phase::Walking => {},
            _ => {
                return ;
            },
        }
        let ghost before = self@;
        let ghost old_stack = self.stack@;
        match property {
            Some(owner) => {
                if owner == self.pid {
                    self.matches.push(self.current);
                }
            },
            None => {},
        }
        let mut k: usize = children.len();
        while k > 0
            invariant
                k <= children.len(),
                self.stack@ == old_stack + children@.subrange(
                    k as int,
                    children.len() as int,
                ).reverse(),
                self.direction == before.direction,
                self.pid == before.pid,
                self.phase == before.phase,
                self.atom == before.atom,
                self.current == before.current,
                self.position == before.position,
                self.all_succeeded == before.all_succeeded,
                self.outcome == before.outcome,
                self.matches@ == (if property == Some(before.pid) {
                    before.matches.push(before.current)
                } else {
                    before.matches
                }),
            decreases k,
        {
            k -= 1;
            self.stack.push(children[k]);
        }
        let ghost queue = children@ + before.pending;
        match self.stack.pop() {
            Some(next) => {
                self.current = next;
                assert(self.stack@.reverse() =~= queue.subrange(1, queue.len() as int));
            },
            None => {
                self.finish_walk();
            },
        }
    }

    /// Takes the caller's report of the action it performed and moves on.
    /// The result is what the session asks for next. A report that does not
    /// answer the session's action is passed over: the session stays as it
    /// is and asks again.
    pub fn step(&mut self, event: Event) -> (action: Action)
        ensures
            final(self)@ == next_state(old(self)@, event@),
            action == action_of(final(self)@),
            well_formed(old(self)@) ==> well_formed(final(self)@),
    {
        match event {
            Event::Display { root } => {
                if let Phase::Opening = self.phase {
                    match root {
                        Some(window) => {
                            self.phase = Phase::Resolving;
                            self.current = window;
                        },
                        None => {
                            self.phase = Phase::Finished;
                            self.outcome = Err(LocateError::NoDisplay);
                        },
                    }
                }
            },
            Event::Atom { atom } => {
                if let Phase::Resolving = self.phase {
                    if atom == NO_ATOM {
                        self.phase = Phase::Closing;
                        self.outcome = Err(LocateError::NoPidAtom);
                    } else {
                        self.phase = Phase::Walking;
                        self.atom = atom;
                    }
                }
            },
            Event::Window { property, children } => {
                self.search_windows(property, &children);
            },
            Event::Restacked { moved, focused } => {
                if let Phase::Restacking = self.phase {
                    self.all_succeeded = self.all_succeeded && moved == SUCCEEDED && focused
                        == SUCCEEDED;
                    if self.matches.len() > 0 && self.position < self.matches.len() - 1 {
                        self.position = self.position + 1;
                        self.current = self.matches[self.position];
                    } else {
                        self.phase = Phase::Closing;
                        self.outcome = Ok(self.all_succeeded);
                    }
                }
            },
            Event::Closed => {
                if let Phase::Closing = self.phase {
                    self.phase = Phase::Finished;
                }
            },
        }
        self.action()
    }
}

/// Begins a session that brings the windows of `pid` to the front.
pub fn bring_window_to_front(pid: u64) -> (session: Session)
    ensures
        session@ == initial(Direction::Raise, pid),
        well_formed(session@),
{
    Session::new(Direction::Raise, pid)
}

/// Begins a session that sends the windows of `pid` to the back.
pub fn bring_process_to_back(pid: u64) -> (session: Session)
    ensures
        session@ == initial(Direction::Lower, pid),
        well_formed(session@),
{
    Session::new(Direction::Lower, pid)
}

} // verus!
