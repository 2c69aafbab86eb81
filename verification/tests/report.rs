use readiness::{Action, ErrorKind, ReadinessState, Surface, Task};

#[test]
fn fresh_state_has_no_task_done() {
    let state = ReadinessState::new();
    assert!(!state.frontend_done());
    assert!(!state.backend_done());
    assert!(!state.is_done(Task::Frontend));
    assert!(!state.is_done(Task::Backend));
    assert!(!state.is_complete());
    assert_eq!(state, ReadinessState::default());
}

#[test]
fn task_names_are_parsed() {
    assert_eq!(Task::parse("frontend"), Ok(Task::Frontend));
    assert_eq!(Task::parse("backend"), Ok(Task::Backend));
    assert_eq!(Task::Frontend.name(), "frontend");
    assert_eq!(Task::Backend.name(), "backend");
    assert_eq!(Task::parse(Task::Frontend.name()), Ok(Task::Frontend));
    assert_eq!(Task::parse(Task::Backend.name()), Ok(Task::Backend));
}

#[test]
fn unknown_names_are_invalid_tasks() {
    for name in [
        "",
        "unknown",
        "typo",
        "Frontend",
        "BACKEND",
        "frontend ",
        " backend",
        "front",
        "frontends",
        "backen",
        "backend\0",
        "frontènd",
        "b\u{430}ckend",
    ] {
        assert_eq!(Task::parse(name), Err(ErrorKind::InvalidTask), "{:?}", name);
    }
}

#[test]
fn frontend_then_backend_fires_on_the_second_report() {
    let mut state = ReadinessState::new();
    assert_eq!(state.report("frontend"), Ok(Action::Nothing));
    assert!(state.frontend_done());
    assert!(!state.backend_done());
    assert!(!state.is_complete());
    assert_eq!(state.report("backend"), Ok(Action::Transition));
    assert!(state.frontend_done());
    assert!(state.backend_done());
    assert!(state.is_complete());
}

#[test]
fn backend_twice_then_frontend_fires_on_the_third_report() {
    let mut state = ReadinessState::new();
    assert_eq!(state.report("backend"), Ok(Action::Nothing));
    assert_eq!(state.report("backend"), Ok(Action::Nothing));
    assert!(!state.is_complete());
    assert_eq!(state.report("frontend"), Ok(Action::Transition));
    assert!(state.is_complete());
}

#[test]
fn duplicate_reports_never_fail_and_never_fire_again() {
    let mut state = ReadinessState::new();
    assert_eq!(state.report("frontend"), Ok(Action::Nothing));
    let once = state;
    assert_eq!(state.report("frontend"), Ok(Action::Nothing));
    assert_eq!(state, once);
    assert_eq!(state.report("backend"), Ok(Action::Transition));
    let complete = state;
    for name in ["frontend", "backend", "backend", "frontend"] {
        assert_eq!(state.report(name), Ok(Action::Nothing));
        assert_eq!(state, complete);
    }
}

#[test]
fn invalid_report_leaves_the_state_alone() {
    let mut state = ReadinessState::new();
    assert_eq!(state.report("unknown"), Err(ErrorKind::InvalidTask));
    assert_eq!(state, ReadinessState::new());
    assert_eq!(state.report("frontend"), Ok(Action::Nothing));
    let one = state;
    assert_eq!(state.report("unknown"), Err(ErrorKind::InvalidTask));
    assert_eq!(state, one);
    assert_eq!(state.report("backend"), Ok(Action::Transition));
    let both = state;
    assert_eq!(state.report("unknown"), Err(ErrorKind::InvalidTask));
    assert_eq!(state, both);
}

#[test]
fn typo_then_both_tasks_still_completes() {
    let mut state = ReadinessState::new();
    assert_eq!(state.report("typo"), Err(ErrorKind::InvalidTask));
    assert_eq!(state.report("frontend"), Ok(Action::Nothing));
    assert_eq!(state.report("backend"), Ok(Action::Transition));
    assert!(state.is_complete());
}

#[test]
fn either_order_ends_in_the_same_state_with_one_transition() {
    let mut first = ReadinessState::new();
    let a = [first.report("frontend"), first.report("backend")];
    let mut second = ReadinessState::new();
    let b = [second.report("backend"), second.report("frontend")];
    assert_eq!(a, [Ok(Action::Nothing), Ok(Action::Transition)]);
    assert_eq!(b, [Ok(Action::Nothing), Ok(Action::Transition)]);
    assert_eq!(first, second);
    assert!(first.frontend_done() && first.backend_done());
}

#[test]
fn one_task_alone_never_fires() {
    for (task, other) in [(Task::Frontend, Task::Backend), (Task::Backend, Task::Frontend)] {
        let mut state = ReadinessState::new();
        for _ in 0..5 {
            assert_eq!(state.report(task.name()), Ok(Action::Nothing));
            assert_eq!(state.report("neither"), Err(ErrorKind::InvalidTask));
            assert!(state.is_done(task));
            assert!(!state.is_done(other));
            assert!(!state.is_complete());
        }
    }
}

#[test]
fn mark_fires_exactly_when_it_completes_the_pair() {
    let mut state = ReadinessState::new();
    assert_eq!(state.mark(Task::Backend), Action::Nothing);
    assert!(state.backend_done() && !state.frontend_done());
    assert_eq!(state.mark(Task::Backend), Action::Nothing);
    assert_eq!(state.mark(Task::Frontend), Action::Transition);
    assert!(state.is_complete());
    assert_eq!(state.mark(Task::Frontend), Action::Nothing);
    assert_eq!(state.mark(Task::Backend), Action::Nothing);
    assert!(state.is_complete());
}

#[test]
fn every_interleaving_of_two_and_two_reports_fires_exactly_once() {
    let orders: [[&str; 4]; 6] = [
        ["frontend", "frontend", "backend", "backend"],
        ["frontend", "backend", "frontend", "backend"],
        ["frontend", "backend", "backend", "frontend"],
        ["backend", "frontend", "frontend", "backend"],
        ["backend", "frontend", "backend", "frontend"],
        ["backend", "backend", "frontend", "frontend"],
    ];
    for order in orders {
        let mut state = ReadinessState::new();
        let mut fired_at = Vec::new();
        for (place, name) in order.iter().enumerate() {
            let before = state.is_complete();
            let action = state.report(name).expect("a known task");
            if action == Action::Transition {
                fired_at.push(place);
                assert!(!before && state.is_complete());
            }
        }
        assert_eq!(fired_at.len(), 1, "{:?}", order);
        let winner = fired_at[0];
        assert_ne!(order[winner], order[0]);
        assert!(order[..winner].iter().all(|name| *name == order[0]));
        assert!(state.is_complete());
    }
}

#[test]
fn error_messages_are_fixed_texts() {
    assert_eq!(ErrorKind::InvalidTask.message(), "invalid task completed");
    assert_eq!(
        ErrorKind::SurfaceNotFound(Surface::Loading).message(),
        "loading surface not found"
    );
    assert_eq!(ErrorKind::SurfaceNotFound(Surface::Main).message(), "main surface not found");
    assert_eq!(ErrorKind::SurfaceOperationFailed.message(), "surface operation failed");
    assert_eq!(Surface::Loading.name(), "loading");
    assert_eq!(Surface::Main.name(), "main");
}
