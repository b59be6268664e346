use rembed::eval::{is_real, Action, EvalError, Event, ProtectedEval, Stage, PARSE_OK, REALSXP};
use rembed::lifecycle::{Engine, LifecycleError};
use rembed::protect::ProtectStack;

fn running() -> Engine {
    let mut e = Engine::new();
    e.start().unwrap();
    e
}

/// Feeds `events` in turn and returns the actions, the last one included.
fn drive(s: &mut ProtectedEval, stack: &mut ProtectStack, events: &[Event]) -> Vec<Action> {
    events.iter().map(|e| s.step(stack, *e)).collect()
}

fn finish_of(actions: &[Action]) -> Result<u64, EvalError> {
    match actions.last() {
        Some(Action::Finish(r)) => *r,
        other => panic!("not finished: {:?}", other),
    }
}

#[test]
fn protect_and_unprotect_newest_first() {
    let mut st = ProtectStack::new();
    st.protect(1);
    st.protect(2);
    st.protect(3);
    assert_eq!(st.depth(), 3);
    st.unprotect(2);
    assert_eq!(st.depth(), 1);
    st.unprotect(1);
    assert_eq!(st.depth(), 0);
}

#[test]
fn successful_evaluation_with_print() {
    let e = running();
    let mut stack = ProtectStack::new();
    stack.protect(99);
    let (mut s, first) = ProtectedEval::begin(&e, true).unwrap();
    assert!(matches!(first, Action::MakeSource));
    let acts = drive(
        &mut s,
        &mut stack,
        &[
            Event::SourceMade(10),
            Event::Done,
            Event::Parsed { handle: 20, status: PARSE_OK, count: 1 },
            Event::Done,
            Event::Evaluated(30),
            Event::Done,
            Event::Done,
        ],
    );
    assert!(matches!(acts[0], Action::Protect(10)));
    assert!(matches!(acts[1], Action::Parse(10)));
    assert!(matches!(acts[2], Action::Protect(20)));
    assert!(matches!(acts[3], Action::Evaluate(20)));
    assert!(matches!(acts[4], Action::Print(30)));
    assert!(matches!(acts[5], Action::Unprotect(2)));
    assert_eq!(finish_of(&acts), Ok(30));
    assert_eq!(stack.depth(), 1);
    assert_eq!(s.stage, Stage::Finished);
}

#[test]
fn successful_evaluation_without_print() {
    let e = running();
    let mut stack = ProtectStack::new();
    let (mut s, _) = ProtectedEval::begin(&e, false).unwrap();
    let acts = drive(
        &mut s,
        &mut stack,
        &[
            Event::SourceMade(1),
            Event::Done,
            Event::Parsed { handle: 2, status: PARSE_OK, count: 3 },
            Event::Done,
            Event::Evaluated(7),
            Event::Done,
        ],
    );
    assert!(matches!(acts[4], Action::Unprotect(2)));
    assert_eq!(finish_of(&acts), Ok(7));
    assert_eq!(stack.depth(), 0);
}

#[test]
fn parse_failure_is_reported_and_balanced() {
    let e = running();
    let mut stack = ProtectStack::new();
    stack.protect(5);
    stack.protect(6);
    let (mut s, _) = ProtectedEval::begin(&e, true).unwrap();
    let acts = drive(
        &mut s,
        &mut stack,
        &[
            Event::SourceMade(1),
            Event::Done,
            Event::Parsed { handle: 2, status: 3, count: 0 },
            Event::Done,
            Event::Done,
        ],
    );
    assert!(matches!(acts[3], Action::Unprotect(2)));
    assert_eq!(finish_of(&acts), Err(EvalError::Parse(3)));
    assert_eq!(stack.depth(), 2);
}

#[test]
fn empty_text_has_no_expression() {
    let e = running();
    let mut stack = ProtectStack::new();
    let (mut s, _) = ProtectedEval::begin(&e, false).unwrap();
    let acts = drive(
        &mut s,
        &mut stack,
        &[
            Event::SourceMade(1),
            Event::Done,
            Event::Parsed { handle: 2, status: PARSE_OK, count: 0 },
            Event::Done,
            Event::Done,
        ],
    );
    assert_eq!(finish_of(&acts), Err(EvalError::NoExpression));
    assert_eq!(stack.depth(), 0);
}

#[test]
fn undefined_function_is_an_error_and_engine_stays_usable() {
    let e = running();
    let mut stack = ProtectStack::new();
    let (mut s, _) = ProtectedEval::begin(&e, true).unwrap();
    let acts = drive(
        &mut s,
        &mut stack,
        &[
            Event::SourceMade(1),
            Event::Done,
            Event::Parsed { handle: 2, status: PARSE_OK, count: 1 },
            Event::Done,
            Event::EvalFailed,
            Event::Done,
        ],
    );
    assert_eq!(finish_of(&acts), Err(EvalError::Runtime));
    assert_eq!(stack.depth(), 0);
    assert!(e.is_running());
    let (mut next, _) = ProtectedEval::begin(&e, false).unwrap();
    let acts = drive(
        &mut next,
        &mut stack,
        &[
            Event::SourceMade(3),
            Event::Done,
            Event::Parsed { handle: 4, status: PARSE_OK, count: 1 },
            Event::Done,
            Event::Evaluated(8),
            Event::Done,
        ],
    );
    assert_eq!(finish_of(&acts), Ok(8));
}

#[test]
fn unexpected_event_releases_what_was_held() {
    let e = running();
    let mut stack = ProtectStack::new();
    let (mut s, _) = ProtectedEval::begin(&e, false).unwrap();
    let acts = drive(&mut s, &mut stack, &[Event::SourceMade(1), Event::EvalFailed, Event::Done]);
    assert!(matches!(acts[1], Action::Unprotect(1)));
    assert_eq!(finish_of(&acts), Err(EvalError::Protocol));
    assert_eq!(stack.depth(), 0);
}

#[test]
fn unexpected_first_event_finishes_at_once() {
    let e = running();
    let mut stack = ProtectStack::new();
    let (mut s, _) = ProtectedEval::begin(&e, false).unwrap();
    let acts = drive(&mut s, &mut stack, &[Event::Done]);
    assert_eq!(finish_of(&acts), Err(EvalError::Protocol));
    assert_eq!(stack.depth(), 0);
}

#[test]
fn finished_evaluation_repeats_its_result() {
    let e = running();
    let mut stack = ProtectStack::new();
    let (mut s, _) = ProtectedEval::begin(&e, false).unwrap();
    let events = [
        Event::SourceMade(1),
        Event::Done,
        Event::Parsed { handle: 2, status: PARSE_OK, count: 1 },
        Event::Done,
        Event::Evaluated(9),
        Event::Done,
        Event::Done,
    ];
    let acts = drive(&mut s, &mut stack, &events);
    assert_eq!(finish_of(&acts), Ok(9));
    assert!(matches!(acts[5], Action::Finish(Ok(9))));
}

#[test]
fn evaluation_refused_outside_running_phase() {
    let mut e = Engine::new();
    assert!(matches!(ProtectedEval::begin(&e, true), Err(LifecycleError::NotStarted)));
    e.start().unwrap();
    e.stop().unwrap();
    assert!(matches!(ProtectedEval::begin(&e, true), Err(LifecycleError::AlreadyStopped)));
}

#[test]
fn real_type_tag() {
    assert!(is_real(REALSXP));
    assert!(is_real(14));
    assert!(!is_real(13));
}
