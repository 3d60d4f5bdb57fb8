use indextts_launcher::capture::{CapturePhase, CapturePlan, CaptureTask, Guard};
use indextts_launcher::command::{CommandOutput, CommandSpec};
use indextts_launcher::failure::Failure;
use indextts_launcher::plan::{PathProbe, Reply, Request};

fn task(guard: Option<Guard>) -> CaptureTask {
    CaptureTask {
        guard,
        command: CommandSpec::new("tool").arg("go"),
        spawn_context: "cannot run tool".to_string(),
        failure_context: "tool failed".to_string(),
        success: "done".to_string(),
    }
}

fn guard() -> Guard {
    Guard {
        probe: PathProbe { base: "/d".to_string(), child: Some("f".to_string()), must_be_dir: false },
        refusal: "f is missing".to_string(),
    }
}

#[test]
fn unguarded_task_runs_at_once() {
    let mut plan = CapturePlan::new(task(None));
    assert_eq!(plan.phase(), CapturePhase::Start);
    assert_eq!(plan.next(Reply::Start).request, Request::Capture(CommandSpec::new("tool").arg("go")));
    assert_eq!(plan.phase(), CapturePhase::Capturing);
    let output = CommandOutput { success: true, status: String::new(), stdout: vec![], stderr: vec![] };
    assert_eq!(plan.next(Reply::Captured(Ok(output))).request, Request::Done);
    assert_eq!(plan.phase(), CapturePhase::Done);
    assert_eq!(plan.into_outcome(), Some(Ok("done".to_string())));
}

#[test]
fn guarded_task_asks_first() {
    let mut plan = CapturePlan::new(task(Some(guard())));
    assert_eq!(plan.next(Reply::Start).request, Request::Probe(vec![guard().probe]));
    assert_eq!(
        plan.next(Reply::Probed(vec![true])).request,
        Request::Capture(CommandSpec::new("tool").arg("go"))
    );

    let mut plan = CapturePlan::new(task(Some(guard())));
    plan.next(Reply::Start);
    assert_eq!(plan.next(Reply::Probed(vec![false])).request, Request::Done);
    assert_eq!(
        plan.into_outcome(),
        Some(Err(Failure::Rejected { message: "f is missing".to_string() }))
    );
}

#[test]
fn capture_plan_out_of_turn() {
    let mut plan = CapturePlan::new(task(None));
    plan.next(Reply::Start);
    assert_eq!(plan.next(Reply::Probed(vec![true])).request, Request::Done);
    assert_eq!(plan.into_outcome(), Some(Err(Failure::OutOfTurn)));
    let mut plan = CapturePlan::new(task(Some(guard())));
    plan.next(Reply::Start);
    assert_eq!(plan.next(Reply::Probed(vec![])).request, Request::Done);
    assert_eq!(plan.into_outcome(), Some(Err(Failure::OutOfTurn)));
}
