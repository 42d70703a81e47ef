use procctl::linux::{
    bring_process_to_back, bring_window_to_front, Action, Direction, Event, LocateError, RevertTo,
    Session,
};

/// A display made up for the tests: windows with their process property and
/// children, and what it answers to each restacking.
struct Display {
    reachable: bool,
    atom: u64,
    root: u64,
    windows: Vec<(u64, Option<u64>, Vec<u64>)>,
    refuses: Vec<u64>,
    inspected: Vec<u64>,
    restacked: Vec<u64>,
    closed: u32,
}

impl Display {
    fn new(windows: Vec<(u64, Option<u64>, Vec<u64>)>) -> Display {
        Display {
            reachable: true,
            atom: 300,
            root: 1,
            windows,
            refuses: Vec::new(),
            inspected: Vec::new(),
            restacked: Vec::new(),
            closed: 0,
        }
    }

    fn answer(&mut self, action: Action) -> Event {
        match action {
            Action::OpenDisplay => {
                Event::Display { root: if self.reachable { Some(self.root) } else { None } }
            }
            Action::ResolveAtom => Event::Atom { atom: self.atom },
            Action::Inspect { window, atom } => {
                assert_eq!(atom, self.atom);
                self.inspected.push(window);
                match self.windows.iter().find(|w| w.0 == window) {
                    Some(w) => Event::Window { property: w.1, children: w.2.clone() },
                    None => Event::Window { property: None, children: Vec::new() },
                }
            }
            Action::Restack { window, .. } => {
                self.restacked.push(window);
                if self.refuses.contains(&window) {
                    Event::Restacked { moved: 1, focused: 0 }
                } else {
                    Event::Restacked { moved: 1, focused: 1 }
                }
            }
            Action::CloseDisplay => {
                self.closed += 1;
                Event::Closed
            }
            Action::Finish { .. } => panic!("a finished session asks for nothing"),
        }
    }

    fn run(&mut self, mut session: Session) -> Result<bool, LocateError> {
        let mut action = session.action();
        for _ in 0..1000 {
            if let Action::Finish { outcome } = action {
                assert_eq!(session.outcome(), Some(outcome));
                return outcome;
            }
            assert_eq!(session.outcome(), None);
            let event = self.answer(action);
            action = session.step(event);
            assert_eq!(action, session.action());
        }
        panic!("the session did not finish");
    }
}

fn desktop() -> Vec<(u64, Option<u64>, Vec<u64>)> {
    vec![
        (1, None, vec![2, 3, 4]),
        (2, Some(77), vec![5, 6]),
        (3, Some(42), vec![7]),
        (4, None, vec![8]),
        (5, Some(42), vec![]),
        (6, None, vec![9]),
        (7, Some(42), vec![]),
        (8, Some(42), vec![]),
        (9, Some(42), vec![]),
    ]
}

#[test]
fn session_begins_by_opening_the_display() {
    assert_eq!(bring_window_to_front(42).action(), Action::OpenDisplay);
    assert_eq!(bring_process_to_back(42).action(), Action::OpenDisplay);
    assert_eq!(Session::new(Direction::Raise, 42).action(), Action::OpenDisplay);
}

#[test]
fn no_display_is_reported_and_nothing_is_closed() {
    let mut display = Display::new(desktop());
    display.reachable = false;
    assert_eq!(display.run(bring_window_to_front(42)), Err(LocateError::NoDisplay));
    assert_eq!(display.closed, 0);
    assert!(display.inspected.is_empty());
}

#[test]
fn missing_atom_is_reported_after_the_display_is_closed() {
    let mut display = Display::new(desktop());
    display.atom = 0;
    assert_eq!(display.run(bring_window_to_front(42)), Err(LocateError::NoPidAtom));
    assert_eq!(display.closed, 1);
    assert!(display.inspected.is_empty());
    assert!(display.restacked.is_empty());
}

#[test]
fn walk_visits_each_window_before_its_children() {
    let mut display = Display::new(desktop());
    assert_eq!(display.run(bring_window_to_front(42)), Ok(true));
    assert_eq!(display.inspected, vec![1, 2, 5, 6, 9, 3, 7, 4, 8]);
}

#[test]
fn windows_of_the_process_are_restacked_in_walk_order() {
    let mut display = Display::new(desktop());
    assert_eq!(display.run(bring_window_to_front(42)), Ok(true));
    assert_eq!(display.restacked, vec![5, 9, 3, 7, 8]);
    assert_eq!(display.closed, 1);
}

#[test]
fn one_failed_restacking_fails_the_whole() {
    for refused in [5u64, 9, 3, 7, 8] {
        let mut display = Display::new(desktop());
        display.refuses = vec![refused];
        assert_eq!(display.run(bring_window_to_front(42)), Ok(false));
        assert_eq!(display.restacked, vec![5, 9, 3, 7, 8]);
        assert_eq!(display.closed, 1);
    }
}

#[test]
fn no_window_means_success() {
    let mut display = Display::new(desktop());
    assert_eq!(display.run(bring_window_to_front(4242)), Ok(true));
    assert!(display.restacked.is_empty());
    assert_eq!(display.inspected.len(), 9);
    assert_eq!(display.closed, 1);
}

#[test]
fn root_alone_can_be_the_window() {
    let mut display = Display::new(vec![(1, Some(42), vec![])]);
    assert_eq!(display.run(bring_process_to_back(42)), Ok(true));
    assert_eq!(display.restacked, vec![1]);
}

#[test]
fn lowering_walks_and_restacks_like_raising() {
    let mut display = Display::new(desktop());
    display.refuses = vec![7];
    assert_eq!(display.run(bring_process_to_back(42)), Ok(false));
    assert_eq!(display.restacked, vec![5, 9, 3, 7, 8]);
}

fn walked(direction: Direction) -> Session {
    let mut session = Session::new(direction, 42);
    assert_eq!(session.step(Event::Display { root: Some(1) }), Action::ResolveAtom);
    assert_eq!(session.step(Event::Atom { atom: 300 }), Action::Inspect { window: 1, atom: 300 });
    session
}

#[test]
fn raising_focuses_the_window() {
    let mut session = walked(Direction::Raise);
    let action = session.step(Event::Window { property: Some(42), children: vec![] });
    assert_eq!(
        action,
        Action::Restack {
            window: 1,
            direction: Direction::Raise,
            focus: 1,
            revert_to: RevertTo::Nothing
        }
    );
}

#[test]
fn lowering_focuses_no_window() {
    let mut session = walked(Direction::Lower);
    let action = session.step(Event::Window { property: Some(42), children: vec![] });
    assert_eq!(
        action,
        Action::Restack {
            window: 1,
            direction: Direction::Lower,
            focus: 0,
            revert_to: RevertTo::PointerRoot
        }
    );
}

#[test]
fn success_needs_both_answers_to_be_one() {
    let cases = [(1, 1, true), (0, 1, false), (1, 0, false), (0, 0, false), (2, 1, false)];
    for (moved, focused, expected) in cases {
        let mut session = walked(Direction::Raise);
        session.step(Event::Window { property: Some(42), children: vec![] });
        assert_eq!(session.step(Event::Restacked { moved, focused }), Action::CloseDisplay);
        assert_eq!(session.step(Event::Closed), Action::Finish { outcome: Ok(expected) });
    }
}

#[test]
fn matches_are_kept_in_the_order_found() {
    let mut session = walked(Direction::Raise);
    session.step(Event::Window { property: None, children: vec![2, 3] });
    assert_eq!(session.matches(), &Vec::<u64>::new());
    session.step(Event::Window { property: Some(42), children: vec![] });
    assert_eq!(session.matches(), &vec![2]);
    session.step(Event::Window { property: Some(42), children: vec![] });
    assert_eq!(session.matches(), &vec![2, 3]);
}

#[test]
fn report_that_answers_nothing_is_passed_over() {
    let mut session = Session::new(Direction::Raise, 42);
    assert_eq!(session.step(Event::Closed), Action::OpenDisplay);
    assert_eq!(session.step(Event::Atom { atom: 5 }), Action::OpenDisplay);
    assert_eq!(session.step(Event::Display { root: Some(1) }), Action::ResolveAtom);
    assert_eq!(session.step(Event::Display { root: None }), Action::ResolveAtom);
    assert_eq!(session.step(Event::Restacked { moved: 1, focused: 1 }), Action::ResolveAtom);
    assert_eq!(session.step(Event::Atom { atom: 5 }), Action::Inspect { window: 1, atom: 5 });
    assert_eq!(session.step(Event::Closed), Action::Inspect { window: 1, atom: 5 });
}

#[test]
fn finished_session_stays_finished() {
    let mut session = Session::new(Direction::Raise, 42);
    let end = Action::Finish { outcome: Err(LocateError::NoDisplay) };
    assert_eq!(session.step(Event::Display { root: None }), end);
    assert_eq!(session.step(Event::Display { root: Some(1) }), end);
    assert_eq!(session.step(Event::Closed), end);
    assert_eq!(session.outcome(), Some(Err(LocateError::NoDisplay)));
}
