//! An operation that is one captured command, optionally guarded by a
//! question about a path: the command runs only where the answer is yes.

use vstd::prelude::*;
use vstd::string::StringExecFns;
use crate::command::{
    capture_verdict,
    spec_capture_verdict,
    CommandOutputView,
    CommandSpec,
    CommandSpecView,
};
use crate::failure::{Failure, FailureView};
use crate::plan::{
    outcome_view,
    PathProbe,
    PathProbeView,
    Reply,
    ReplyView,
    Request,
    RequestView,
    Turn,
    TurnView,
};

verus! {

/// Where a capture plan stands.
#[derive(Clone, Copy, Debug, PartialEq, Eq, Structural)]
pub enum CapturePhase {
    Start,
    Guarding,
    Capturing,
    Done,
}

/// A question that must be answered with yes, and what is said otherwise.
#[derive(Clone, Debug, PartialEq, Eq)]
pub struct Guard {
    pub probe: PathProbe,
    pub refusal: String,
}

pub struct GuardView {
    pub probe: PathProbeView,
    pub refusal: Seq<char>,
}

impl View for Guard {
    type V = GuardView;

    open spec fn view(&self) -> GuardView {
        GuardView { probe: self.probe@, refusal: self.refusal@ }
    }
}

/// What the plan is made of: the command, what to say when it cannot be run
/// or reports failure, and what to report when it succeeds.
#[derive(Clone, Debug, PartialEq, Eq)]
pub struct CaptureTask {
    pub guard: Option<Guard>,
    pub command: CommandSpec,
    pub spawn_context: String,
    pub failure_context: String,
    pub success: String,
}

pub struct CaptureTaskView {
    pub guard: Option<GuardView>,
    pub command: CommandSpecView,
    pub spawn_context: Seq<char>,
    pub failure_context: Seq<char>,
    pub success: Seq<char>,
}

impl View for CaptureTask {
    type V = CaptureTaskView;

    open spec fn view(&self) -> CaptureTaskView {
        CaptureTaskView {
            guard: match self.guard {
                Some(guard) => Some(guard@),
                None => None,
            },
            command: self.command@,
            spawn_context: self.spawn_context@,
            failure_context: self.failure_context@,
            success: self.success@,
        }
    }
}

impl CaptureTaskView {
    /// What the task reports for a command that was captured.
    pub open spec fn verdict(self, ran: Result<CommandOutputView, Seq<char>>) -> Result<
        Seq<char>,
        FailureView,
    > {
        match spec_capture_verdict(ran, self.spawn_context, self.failure_context) {
            Ok(_) => Ok(self.success),
            Err(failure) => Err(failure),
        }
    }
}

/// A capture plan as a value.
pub struct CapturePlanView {
    pub task: CaptureTaskView,
    pub phase: CapturePhase,
    pub outcome: Option<Result<Seq<char>, FailureView>>,
}

impl CapturePlanView {
    pub open spec fn start(task: CaptureTaskView) -> CapturePlanView {
        CapturePlanView { task, phase: CapturePhase::Start, outcome: None }
    }

    pub open spec fn goes(self, phase: CapturePhase, request: RequestView) -> (
        CapturePlanView,
        TurnView,
    ) {
        (CapturePlanView { phase, ..self }, TurnView::quiet(request))
    }

    pub open spec fn ends(self, outcome: Result<Seq<char>, FailureView>) -> (
        CapturePlanView,
        TurnView,
    ) {
        (
            CapturePlanView { phase: CapturePhase::Done, outcome: Some(outcome), ..self },
            TurnView::quiet(RequestView::Done),
        )
    }

    pub open spec fn captures(self) -> (CapturePlanView, TurnView) {
        self.goes(CapturePhase::Capturing, RequestView::Capture(self.task.command))
    }

    /// The plan's next state and move on `reply`.
    pub open spec fn next(self, reply: ReplyView) -> (CapturePlanView, TurnView) {
        let out_of_turn = self.ends(Err(FailureView::OutOfTurn));
        match self.phase {
            CapturePhase::Start => match reply {
                ReplyView::Start => match self.task.guard {
                    Some(guard) => self.goes(
                        CapturePhase::Guarding,
                        RequestView::Probe(seq![guard.probe]),
                    ),
                    None => self.captures(),
                },
                _ => out_of_turn,
            },
            CapturePhase::Guarding => match reply {
                ReplyView::Probed(flags) => if flags.len() != 1 || self.task.guard is None {
                    out_of_turn
                } else if flags[0] {
                    self.captures()
                } else {
                    self.ends(Err(FailureView::Rejected { message: self.task.guard->0.refusal }))
                },
                _ => out_of_turn,
            },
            CapturePhase::Capturing => match reply {
                ReplyView::Captured(ran) => self.ends(self.task.verdict(ran)),
                _ => out_of_turn,
            },
            CapturePhase::Done => (self, TurnView::quiet(RequestView::Done)),
        }
    }
}

/// The plan that runs one captured command.
pub struct CapturePlan {
    task: CaptureTask,
    phase: CapturePhase,
    outcome: Option<Result<String, Failure>>,
}

impl View for CapturePlan {
    type V = CapturePlanView;

    closed spec fn view(&self) -> CapturePlanView {
        CapturePlanView { task: self.task@, phase: self.phase, outcome: outcome_view(self.outcome) }
    }
}

impl CapturePlan {
    /// The plan for `task`.
    pub fn new(task: CaptureTask) -> (plan: CapturePlan)
        ensures
            plan@ == CapturePlanView::start(task@),
    {
        CapturePlan { task, phase: CapturePhase::Start, outcome: None }
    }

    fn ends(&mut self, outcome: Result<String, Failure>) -> (made: Turn)
        ensures
            (final(self)@, made@) == old(self)@.ends(
                match outcome {
                    Ok(text) => Ok(text@),
                    Err(failure) => Err(failure@),
                },
            ),
    {
        self.phase = CapturePhase::Done;
        self.outcome = Some(outcome);
        Turn::quiet(Request::Done)
    }

    fn captures(&mut self) -> (made: Turn)
        ensures
            (final(self)@, made@) == old(self)@.captures(),
    {
        let request = Request::Capture(self.task.command.duplicate());
        self.phase = CapturePhase::Capturing;
        Turn::quiet(request)
    }

    /// Takes the driver's reply and makes the plan's next move.
    pub fn next(&mut self, reply: Reply) -> (turn: Turn)
        ensures
            (final(self)@, turn@) == old(self)@.next(reply@),
    {
        match self.phase {
            CapturePhase::Start => match reply {
                Reply::Start => match &self.task.guard {
                    Some(guard) => {
                        let mut probes: Vec<PathProbe> = Vec::new();
                        probes.push(
                            PathProbe {
                                base: guard.probe.base.clone(),
                                child: match &guard.probe.child {
                                    Some(child) => Some(child.clone()),
                                    None => None,
                                },
                                must_be_dir: guard.probe.must_be_dir,
                            },
                        );
                        let request = Request::Probe(probes);
                        assert(request@->Probe_0 =~= seq![guard@.probe]);
                        self.phase = CapturePhase::Guarding;
                        Turn::quiet(request)
                    },
                    None => self.captures(),
                },
                _ => self.ends(Err(Failure::OutOfTurn)),
            },
            CapturePhase::Guarding => match reply {
                Reply::Probed(flags) => {
                    if flags.len() != 1 {
                        self.ends(Err(Failure::OutOfTurn))
                    } else {
                        let refusal = match &self.task.guard {
                            Some(guard) => Some(guard.refusal.clone()),
                            None => None,
                        };
                        match refusal {
                            None => self.ends(Err(Failure::OutOfTurn)),
                            Some(message) => {
                                if flags[0] {
                                    self.captures()
                                } else {
                                    self.ends(Err(Failure::Rejected { message }))
                                }
                            },
                        }
                    }
                },
                _ => self.ends(Err(Failure::OutOfTurn)),
            },
            CapturePhase::Capturing => match reply {
                Reply::Captured(ran) => {
                    let verdict = capture_verdict(
                        ran,
                        self.task.spawn_context.as_str(),
                        self.task.failure_context.as_str(),
                    );
                    match verdict {
                        Ok(_) => {
                            let success = self.task.success.clone();
                            self.ends(Ok(success))
                        },
                        Err(failure) => self.ends(Err(failure)),
                    }
                },
                _ => self.ends(Err(Failure::OutOfTurn)),
            },
            CapturePhase::Done => Turn::quiet(Request::Done),
        }
    }

    /// Where the plan stands.
    pub fn phase(&self) -> (phase: CapturePhase)
        ensures
            phase == self@.phase,
    {
        self.phase
    }

    /// Gives up the plan for its outcome: `None` while it has none.
    pub fn into_outcome(self) -> (outcome: Option<Result<String, Failure>>)
        ensures
            outcome_view(outcome) == self@.outcome,
    {
        self.outcome
    }
}

} // verus!
