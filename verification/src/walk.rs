//! What a session achieves when the display answers truthfully.
//!
//! The display's windows form a tree. A session never sees the tree: it
//! inspects one window at a time and is told that window's children. The
//! laws of this file say that, fed with the answers that a tree gives, a
//! session finds the windows of the wanted process exactly as a walk of the
//! tree does that visits each window before its children and the children in
//! their order; that it restacks each window found and succeeds if and only
//! if each restacking does; and that it closes the display before it ends.

use crate::linux::{
    action_of, after_walk, initial, next_state, restack_of, restack_succeeded, walk_on, Action,
    Direction, EventView, LocateError, Phase, SessionView, NO_ATOM,
};
use vstd::prelude::*;

verus! {

/// A window with what the display knows of it: the process that its property
/// names, where it has the property, and the windows below it.
pub struct WindowTree {
    pub window: u64,
    pub property: Option<u64>,
    pub children: Seq<WindowTree>,
}

/// The windows at the top of `trees`.
pub open spec fn windows_of(trees: Seq<WindowTree>) -> Seq<u64> {
    trees.map_values(|tree: WindowTree| tree.window)
}

/// The windows of `tree` whose property names `pid`: the top window first, if
/// it is one, then those below each child, child by child.
pub open spec fn owned_windows(tree: WindowTree, pid: u64) -> Seq<u64>
    decreases tree,
{
    let top = if tree.property == Some(pid) {
        seq![tree.window]
    } else {
        Seq::empty()
    };
    top + owned_among(tree.children, pid)
}

/// The windows of `trees` whose property names `pid`, tree by tree.
pub open spec fn owned_among(trees: Seq<WindowTree>, pid: u64) -> Seq<u64>
    decreases trees,
{
    if trees.len() == 0 {
        Seq::empty()
    } else {
        owned_windows(trees[0], pid) + owned_among(trees.subrange(1, trees.len() as int), pid)
    }
}

/// What the display reports when the top window of `tree` is inspected.
pub open spec fn inspection_of(tree: WindowTree) -> EventView {
    EventView::Window { property: tree.property, children: windows_of(tree.children) }
}

/// The state of a session after it has been told of every window of `tree`,
/// each when its turn came: the top window, then the windows of each child.
pub open spec fn after_tree(s: SessionView, tree: WindowTree) -> SessionView
    decreases tree,
{
    after_trees(next_state(s, inspection_of(tree)), tree.children)
}

/// The state of a session after it has been told of every window of `trees`,
/// tree by tree.
pub open spec fn after_trees(s: SessionView, trees: Seq<WindowTree>) -> SessionView
    decreases trees,
{
    if trees.len() == 0 {
        s
    } else {
        after_trees(after_tree(s, trees[0]), trees.subrange(1, trees.len() as int))
    }
}

/// Whether every one of `answers` reports a restacking that succeeded.
pub open spec fn all_restacks_succeeded(answers: Seq<(i32, i32)>) -> bool {
    forall|k: int| 0 <= k < answers.len() ==> restack_succeeded(answers[k].0, answers[k].1)
}

/// The state of a session after the display has answered one restacking
/// after the other with `answers`.
pub open spec fn after_restacks(s: SessionView, answers: Seq<(i32, i32)>) -> SessionView
    decreases answers.len(),
{
    if answers.len() == 0 {
        s
    } else {
        after_restacks(
            next_state(s, EventView::Restacked { moved: answers[0].0, focused: answers[0].1 }),
            answers.subrange(1, answers.len() as int),
        )
    }
}

/// The state in which a whole session ends: the display gave `root` when it
/// was opened, `atom` for the process property, the windows of `tree` when
/// they were inspected and `answers` when the windows found were restacked,
/// and was closed when the session asked for it.
pub open spec fn session_end(
    direction: Direction,
    pid: u64,
    root: Option<WindowTree>,
    atom: u64,
    answers: Seq<(i32, i32)>,
) -> SessionView {
    match root {
        None => next_state(initial(direction, pid), EventView::Display { root: None }),
        Some(tree) => {
            let opened = next_state(
                initial(direction, pid),
                EventView::Display { root: Some(tree.window) },
            );
            let resolved = next_state(opened, EventView::Atom { atom });
            let found = if atom == NO_ATOM {
                resolved
            } else {
                after_restacks(after_tree(resolved, tree), answers)
            };
            next_state(found, EventView::Closed)
        },
    }
}

/// A session that inspects the top window of `tree`, with `later` pending
/// behind it, has after the windows of `tree` found what it had found before
/// and the windows of `tree` that the wanted process owns, in the order of
/// the walk, and goes on with `later`.
pub proof fn lemma_walk_of_tree(s: SessionView, tree: WindowTree, later: Seq<u64>)
    requires
        s.phase == Phase::Walking,
        s.current == tree.window,
        s.pending == later,
    ensures
        after_tree(s, tree) == walk_on(s, s.matches + owned_windows(tree, s.pid), later),
    decreases tree, 1int,
{
    let top = if tree.property == Some(s.pid) {
        seq![tree.window]
    } else {
        Seq::empty()
    };
    let found = s.matches + top;
    let children = windows_of(tree.children);
    let told = next_state(s, inspection_of(tree));
    assert(found =~= if tree.property == Some(s.pid) {
        s.matches.push(s.current)
    } else {
        s.matches
    });
    assert(told == walk_on(s, found, children + later));
    assert(s.matches + owned_windows(tree, s.pid) =~= found + owned_among(tree.children, s.pid));
    if tree.children.len() == 0 {
        assert(children + later =~= later);
        assert(found + owned_among(tree.children, s.pid) =~= found);
    } else {
        let queue = children + later;
        assert(queue[0] == tree.children[0].window);
        assert(queue.subrange(1, queue.len() as int) =~= windows_of(
            tree.children.subrange(1, tree.children.len() as int),
        ) + later);
        lemma_walk_of_trees(told, tree.children, later);
    }
}

/// The same of several trees in a row: the session inspects the top window
/// of the first, and has the top windows of the others pending before
/// `later`.
pub proof fn lemma_walk_of_trees(s: SessionView, trees: Seq<WindowTree>, later: Seq<u64>)
    requires
        s.phase == Phase::Walking,
        trees.len() > 0,
        s.current == trees[0].window,
        s.pending == windows_of(trees.subrange(1, trees.len() as int)) + later,
    ensures
        after_trees(s, trees) == walk_on(s, s.matches + owned_among(trees, s.pid), later),
    decreases trees, 0int,
{
    let first = trees[0];
    let rest = trees.subrange(1, trees.len() as int);
    let behind = windows_of(rest) + later;
    lemma_walk_of_tree(s, first, behind);
    let found = s.matches + owned_windows(first, s.pid);
    let told = after_tree(s, first);
    assert(told == walk_on(s, found, behind));
    assert(s.matches + owned_among(trees, s.pid) =~= found + owned_among(rest, s.pid));
    if rest.len() == 0 {
        assert(behind =~= later);
        assert(found + owned_among(rest, s.pid) =~= found);
    } else {
        assert(behind[0] == rest[0].window);
        assert(behind.subrange(1, behind.len() as int) =~= windows_of(
            rest.subrange(1, rest.len() as int),
        ) + later);
        lemma_walk_of_trees(told, rest, later);
    }
}

/// A session that is about to restack the window at `position` among those
/// it found asks for the others in their order, and after the last answer
/// closes the display with the outcome that every restacking succeeded.
pub proof fn lemma_restacks_from(s: SessionView, answers: Seq<(i32, i32)>)
    requires
        s.phase == Phase::Restacking,
        0 <= s.position < s.matches.len(),
        s.current == s.matches[s.position],
        answers.len() == s.matches.len() - s.position,
    ensures
        after_restacks(s, answers) == (SessionView {
            phase: Phase::Closing,
            current: s.matches[s.matches.len() - 1],
            position: s.matches.len() - 1,
            all_succeeded: s.all_succeeded && all_restacks_succeeded(answers),
            outcome: Ok(s.all_succeeded && all_restacks_succeeded(answers)),
            ..s
        }),
        forall|k: int|
            0 <= k < answers.len() ==> action_of(
                #[trigger] after_restacks(s, answers.subrange(0, k)),
            ) == restack_of(s.direction, s.matches[s.position + k]),
    decreases answers.len(),
{
    let told = next_state(s, EventView::Restacked { moved: answers[0].0, focused: answers[0].1 });
    let rest = answers.subrange(1, answers.len() as int);
    let first = restack_succeeded(answers[0].0, answers[0].1);
    assert(all_restacks_succeeded(answers) <==> first && all_restacks_succeeded(rest)) by {
        if all_restacks_succeeded(answers) {
            assert forall|k: int| 0 <= k < rest.len() implies restack_succeeded(
                rest[k].0,
                rest[k].1,
            ) by {
                assert(rest[k] == answers[k + 1]);
            }
        }
        if first && all_restacks_succeeded(rest) {
            assert forall|k: int| 0 <= k < answers.len() implies restack_succeeded(
                answers[k].0,
                answers[k].1,
            ) by {
                if k > 0 {
                    assert(answers[k] == rest[k - 1]);
                }
            }
        }
    }
    if rest.len() > 0 {
        lemma_restacks_from(told, rest);
    } else {
        assert(after_restacks(told, rest) == told);
    }
    assert forall|k: int| 0 <= k < answers.len() implies action_of(
        #[trigger] after_restacks(s, answers.subrange(0, k)),
    ) == restack_of(s.direction, s.matches[s.position + k]) by {
        let seen = answers.subrange(0, k);
        if k > 0 {
            assert(seen[0] == answers[0]);
            assert(seen.subrange(1, seen.len() as int) =~= rest.subrange(0, k - 1));
            assert(after_restacks(s, seen) == after_restacks(told, rest.subrange(0, k - 1)));
        } else {
            assert(after_restacks(s, seen) == s);
        }
    }
}

/// Restacking is all or nothing. After a walk that found `matches`, a session
/// asks for the restacking of each of them in the order found, and when the
/// display has answered them all it closes the display with the outcome that
/// every restacking succeeded. Where nothing was found it asks for no
/// restacking and the outcome is success.
pub proof fn lemma_restacking_is_all_or_nothing(
    s: SessionView,
    matches: Seq<u64>,
    answers: Seq<(i32, i32)>,
)
    requires
        answers.len() == matches.len(),
    ensures
        after_restacks(after_walk(s, matches), answers).phase == Phase::Closing,
        after_restacks(after_walk(s, matches), answers).outcome == Ok::<bool, LocateError>(
            all_restacks_succeeded(answers),
        ),
        forall|k: int|
            0 <= k < matches.len() ==> action_of(
                #[trigger] after_restacks(after_walk(s, matches), answers.subrange(0, k)),
            ) == restack_of(s.direction, matches[k]),
        matches.len() == 0 ==> after_restacks(after_walk(s, matches), answers).outcome == Ok::<
            bool,
            LocateError,
        >(true),
{
    if matches.len() > 0 {
        lemma_restacks_from(after_walk(s, matches), answers);
    }
}

/// The display is closed before a session ends: a session that has opened
/// the display finishes only when it is told that the display was closed, and
/// a session that finishes otherwise was told that no display could be
/// opened.
pub proof fn lemma_finish_follows_close(s: SessionView, event: EventView)
    requires
        s.phase != Phase::Finished,
        next_state(s, event).phase == Phase::Finished,
    ensures
        (s.phase == Phase::Closing && event == EventView::Closed) || (s.phase == Phase::Opening
            && event == (EventView::Display { root: None }) && next_state(s, event).outcome == Err::<
            bool,
            LocateError,
        >(LocateError::NoDisplay)),
{
}

/// A finished session stays finished, with its outcome, whatever it is told.
pub proof fn lemma_finished_is_final(s: SessionView, event: EventView)
    requires
        s.phase == Phase::Finished,
    ensures
        next_state(s, event) == s,
        action_of(s) == (Action::Finish { outcome: s.outcome }),
{
}

/// The outcome of a whole session. Without a display it is the failure that
/// no display could be reached. Where the display does not know the process
/// property it is the failure that says so. Otherwise the session has found
/// the windows of the tree that the wanted process owns, and where the
/// display has answered one restacking for each of them, the outcome is
/// success exactly if every restacking succeeded: with no such window it is
/// always success.
pub proof fn lemma_session_outcome(
    direction: Direction,
    pid: u64,
    root: Option<WindowTree>,
    atom: u64,
    answers: Seq<(i32, i32)>,
)
    requires
        root matches Some(tree) ==> atom != NO_ATOM ==> answers.len() == owned_windows(
            tree,
            pid,
        ).len(),
    ensures
        session_end(direction, pid, root, atom, answers).phase == Phase::Finished,
        session_end(direction, pid, root, atom, answers).outcome == (match root {
            None => Err::<bool, LocateError>(LocateError::NoDisplay),
            Some(tree) => if atom == NO_ATOM {
                Err::<bool, LocateError>(LocateError::NoPidAtom)
            } else {
                Ok::<bool, LocateError>(all_restacks_succeeded(answers))
            },
        }),
        root matches Some(tree) ==> atom != NO_ATOM ==> session_end(
            direction,
            pid,
            root,
            atom,
            answers,
        ).matches == owned_windows(tree, pid),
{
    match root {
        None => {},
        Some(tree) => {
            let opened = next_state(
                initial(direction, pid),
                EventView::Display { root: Some(tree.window) },
            );
            let resolved = next_state(opened, EventView::Atom { atom });
            if atom != NO_ATOM {
                lemma_walk_of_tree(resolved, tree, Seq::empty());
                let found = owned_windows(tree, pid);
                assert(resolved.matches + found =~= found);
                assert(after_tree(resolved, tree) == after_walk(resolved, found));
                lemma_restacking_is_all_or_nothing(resolved, found, answers);
                if found.len() > 0 {
                    lemma_restacks_from(after_walk(resolved, found), answers);
                }
            }
        },
    }
}

} // verus!
