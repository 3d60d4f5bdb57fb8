use indextts_launcher::command::CommandSpec;
use indextts_launcher::failure::Failure;
use indextts_launcher::plan::{Reply, Request, Turn};
use indextts_launcher::sequence::{Step, StepSequence};

fn quiet(request: Request) -> Turn {
    Turn { logs: Vec::new(), request }
}

fn steps() -> Vec<Step> {
    vec![
        Step::new("first", CommandSpec::new("a").arg("1")),
        Step::new("second", CommandSpec::new("b")),
        Step::new("third", CommandSpec::new("c")),
    ]
}

fn stream(step: &Step) -> Turn {
    quiet(Request::Stream { step: step.name.clone(), command: step.command.clone() })
}

#[test]
fn steps_run_in_order_and_end_with_success() {
    let all = steps();
    let mut plan = StepSequence::new(steps());
    assert!(!plan.is_done());
    assert_eq!(plan.next(Reply::Start), stream(&all[0]));
    assert_eq!(plan.next(Reply::Stepped(Ok(()))), stream(&all[1]));
    assert_eq!(plan.next(Reply::Stepped(Ok(()))), stream(&all[2]));
    assert!(!plan.is_done());
    assert_eq!(plan.next(Reply::Stepped(Ok(()))), quiet(Request::Done));
    assert!(plan.is_done());
    assert_eq!(plan.into_outcome(), Some(Ok("SUCCESS".to_string())));
}

#[test]
fn first_failure_stops_the_sequence() {
    let all = steps();
    let mut plan = StepSequence::new(steps());
    plan.next(Reply::Start);
    assert_eq!(plan.next(Reply::Stepped(Ok(()))), stream(&all[1]));
    let failure = Failure::StepFailed { step: "second".to_string(), stderr_excerpt: "no".to_string() };
    assert_eq!(plan.next(Reply::Stepped(Err(failure.clone()))), quiet(Request::Done));
    assert_eq!(plan.next(Reply::Stepped(Ok(()))), quiet(Request::Done));
    assert_eq!(plan.next(Reply::Start), quiet(Request::Done));
    assert_eq!(plan.into_outcome(), Some(Err(failure)));
}

#[test]
fn empty_sequence_succeeds_at_once() {
    let mut plan = StepSequence::new(Vec::new());
    assert_eq!(plan.next(Reply::Start), quiet(Request::Done));
    assert_eq!(plan.into_outcome(), Some(Ok("SUCCESS".to_string())));
}

#[test]
fn sequence_reply_out_of_turn_ends_the_plan() {
    let mut early = StepSequence::new(steps());
    assert_eq!(early.next(Reply::Stepped(Ok(()))), quiet(Request::Done));
    assert_eq!(early.into_outcome(), Some(Err(Failure::OutOfTurn)));
    let mut twice = StepSequence::new(steps());
    twice.next(Reply::Start);
    assert_eq!(twice.next(Reply::Start), quiet(Request::Done));
    assert_eq!(twice.into_outcome(), Some(Err(Failure::OutOfTurn)));
    let mut wrong = StepSequence::new(steps());
    wrong.next(Reply::Start);
    assert_eq!(wrong.next(Reply::Slept), quiet(Request::Done));
    assert_eq!(wrong.into_outcome(), Some(Err(Failure::OutOfTurn)));
}

#[test]
fn sequence_has_no_outcome_while_running() {
    let mut plan = StepSequence::new(steps());
    plan.next(Reply::Start);
    assert_eq!(plan.into_outcome(), None);
}
