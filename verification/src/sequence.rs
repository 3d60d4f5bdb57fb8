//! A composite operation: named steps run one after the other as streamed
//! commands. The first failure ends the operation with that failure; nothing
//! is rolled back and nothing is tried again.

use vstd::prelude::*;
use vstd::string::StringExecFns;
use crate::command::{CommandSpec, CommandSpecView};
use crate::failure::{Failure, FailureView};
use crate::plan::{
    outcome_view,
    success_text,
    lemma_state_after_next,
    state_after,
    turn_at,
    Reply,
    ReplyView,
    Request,
    RequestView,
    Turn,
    TurnView,
};

verus! {

/// One step: the name that its output is attributed to, and its command.
#[derive(Clone, Debug, PartialEq, Eq)]
pub struct Step {
    pub name: String,
    pub command: CommandSpec,
}

pub struct StepView {
    pub name: Seq<char>,
    pub command: CommandSpecView,
}

impl View for Step {
    type V = StepView;

    open spec fn view(&self) -> StepView {
        StepView { name: self.name@, command: self.command@ }
    }
}

pub open spec fn step_views(steps: Seq<Step>) -> Seq<StepView> {
    steps.map_values(|step: Step| step@)
}

impl Step {
    pub fn new(name: &str, command: CommandSpec) -> (step: Step)
        ensures
            step@ == (StepView { name: name@, command: command@ }),
    {
        Step { name: String::from_str(name), command }
    }
}

/// A sequence as a value: its steps, how many of them have been asked for,
/// and its outcome once it has one.
pub struct StepSequenceView {
    pub steps: Seq<StepView>,
    pub issued: nat,
    pub outcome: Option<Result<Seq<char>, FailureView>>,
}

impl StepSequenceView {
    pub open spec fn start(steps: Seq<StepView>) -> StepSequenceView {
        StepSequenceView { steps, issued: 0, outcome: None }
    }

    /// No more steps have been asked for than there are, and success is the
    /// outcome only when all of them have been asked for.
    pub open spec fn wf(self) -> bool {
        &&& self.issued <= self.steps.len()
        &&& self.outcome matches Some(Ok(_)) ==> self.issued == self.steps.len()
    }

    pub open spec fn ends(self, outcome: Result<Seq<char>, FailureView>) -> (
        StepSequenceView,
        TurnView,
    ) {
        (
            StepSequenceView { outcome: Some(outcome), ..self },
            TurnView::quiet(RequestView::Done),
        )
    }

    /// The next step is asked for, or, where none is left, the sequence ends
    /// with success.
    pub open spec fn advances(self) -> (StepSequenceView, TurnView) {
        if self.issued < self.steps.len() {
            let step = self.steps[self.issued as int];
            (
                StepSequenceView { issued: self.issued + 1, ..self },
                TurnView::quiet(RequestView::Stream { step: step.name, command: step.command }),
            )
        } else {
            self.ends(Ok(success_text()))
        }
    }

    /// The sequence's next state and move on `reply`.
    pub open spec fn next(self, reply: ReplyView) -> (StepSequenceView, TurnView) {
        let out_of_turn = self.ends(Err(FailureView::OutOfTurn));
        if self.outcome is Some {
            (self, TurnView::quiet(RequestView::Done))
        } else {
            match reply {
                ReplyView::Start => if self.issued == 0 {
                    self.advances()
                } else {
                    out_of_turn
                },
                ReplyView::Stepped(Ok(())) => if self.issued > 0 {
                    self.advances()
                } else {
                    out_of_turn
                },
                ReplyView::Stepped(Err(failure)) => if self.issued > 0 {
                    self.ends(Err(failure))
                } else {
                    out_of_turn
                },
                _ => out_of_turn,
            }
        }
    }
}

/// The plan that runs steps in sequence.
pub struct StepSequence {
    steps: Vec<Step>,
    issued: usize,
    outcome: Option<Result<String, Failure>>,
}

impl View for StepSequence {
    type V = StepSequenceView;

    closed spec fn view(&self) -> StepSequenceView {
        StepSequenceView {
            steps: step_views(self.steps@),
            issued: self.issued as nat,
            outcome: outcome_view(self.outcome),
        }
    }
}

impl StepSequence {
    /// The plan that runs `steps` in their order.
    pub fn new(steps: Vec<Step>) -> (plan: StepSequence)
        ensures
            plan@ == StepSequenceView::start(step_views(steps@)),
    {
        StepSequence { steps, issued: 0, outcome: None }
    }

    fn ends(&mut self, outcome: Result<String, Failure>) -> (made: Turn)
        ensures
            (final(self)@, made@) == old(self)@.ends(
                match outcome {
                    Ok(text) => Ok(text@),
                    Err(failure) => Err(failure@),
                },
            ),
    {
        self.outcome = Some(outcome);
        Turn::quiet(Request::Done)
    }

    fn advances(&mut self) -> (made: Turn)
        ensures
            (final(self)@, made@) == old(self)@.advances(),
    {
        let count = self.steps.len();
        if self.issued < count {
            let step = &self.steps[self.issued];
            let request = Request::Stream {
                step: step.name.clone(),
                command: step.command.duplicate(),
            };
            self.issued = self.issued + 1;
            Turn::quiet(request)
        } else {
            self.ends(Ok(String::from_str("SUCCESS")))
        }
    }

    /// Takes the driver's reply and makes the plan's next move.
    pub fn next(&mut self, reply: Reply) -> (turn: Turn)
        ensures
            (final(self)@, turn@) == old(self)@.next(reply@),
    {
        if self.outcome.is_some() {
            return Turn::quiet(Request::Done);
        }
        match reply {
            Reply::Start => {
                if self.issued == 0 {
                    self.advances()
                } else {
                    self.ends(Err(Failure::OutOfTurn))
                }
            },
            Reply::Stepped(Ok(())) => {
                if self.issued > 0 {
                    self.advances()
                } else {
                    self.ends(Err(Failure::OutOfTurn))
                }
            },
            Reply::Stepped(Err(failure)) => {
                if self.issued > 0 {
                    self.ends(Err(failure))
                } else {
                    self.ends(Err(Failure::OutOfTurn))
                }
            },
            _ => self.ends(Err(Failure::OutOfTurn)),
        }
    }

    /// Whether the plan has its outcome.
    pub fn is_done(&self) -> (done: bool)
        ensures
            done == self@.outcome is Some,
    {
        self.outcome.is_some()
    }

    /// Gives up the plan for its outcome: `None` while it has none.
    pub fn into_outcome(self) -> (outcome: Option<Result<String, Failure>>)
        ensures
            outcome_view(outcome) == self@.outcome,
    {
        self.outcome
    }
}

/// The rule of a sequence, as a function.
pub open spec fn sequence_rule() -> spec_fn(StepSequenceView, ReplyView) -> (
    StepSequenceView,
    TurnView,
) {
    |plan: StepSequenceView, reply: ReplyView| plan.next(reply)
}

/// One move: the steps stay what they are; a step that is asked for is the
/// one whose turn it is, and the count of steps asked for goes up by one
/// with it and stays otherwise; once there is an outcome nothing changes and
/// nothing more is asked; and the failure of a step is the outcome at once.
pub proof fn lemma_sequence_step(plan: StepSequenceView, reply: ReplyView)
    requires
        plan.wf(),
    ensures
        plan.next(reply).0.wf(),
        plan.next(reply).0.steps == plan.steps,
        plan.next(reply).1.request matches RequestView::Stream { step, command } ==> plan.issued
            < plan.steps.len() && step == plan.steps[plan.issued as int].name && command
            == plan.steps[plan.issued as int].command && plan.next(reply).0.issued == plan.issued
            + 1,
        !(plan.next(reply).1.request is Stream) ==> plan.next(reply).0.issued == plan.issued,
        plan.outcome is Some ==> plan.next(reply) == (plan, TurnView::quiet(RequestView::Done)),
        plan.outcome is None && plan.issued > 0 ==> (reply matches ReplyView::Stepped(
            Err(failure),
        ) ==> plan.next(reply) == plan.ends(Err(failure))),
{
}

/// Along any run from the start, the sequence stays well formed and the
/// count of steps asked for never goes down.
pub proof fn lemma_sequence_run(
    steps: Seq<StepView>,
    replies: Seq<ReplyView>,
    early: int,
    late: int,
)
    requires
        0 <= early <= late <= replies.len(),
    ensures
        state_after(sequence_rule(), StepSequenceView::start(steps), replies.take(early)).wf(),
        state_after(sequence_rule(), StepSequenceView::start(steps), replies.take(late)).wf(),
        state_after(sequence_rule(), StepSequenceView::start(steps), replies.take(early)).steps
            == steps,
        state_after(sequence_rule(), StepSequenceView::start(steps), replies.take(early)).issued
            <= state_after(
            sequence_rule(),
            StepSequenceView::start(steps),
            replies.take(late),
        ).issued,
    decreases late,
{
    let rule = sequence_rule();
    let start = StepSequenceView::start(steps);
    if late == 0 {
        assert(replies.take(0) == Seq::<ReplyView>::empty());
    } else if early == late {
        lemma_sequence_run(steps, replies, early - 1, late - 1);
        lemma_state_after_next(rule, start, replies, late - 1);
        lemma_sequence_step(state_after(rule, start, replies.take(late - 1)), replies[late - 1]);
    } else {
        lemma_sequence_run(steps, replies, early, late - 1);
        lemma_sequence_run(steps, replies, late - 1, late - 1);
        lemma_state_after_next(rule, start, replies, late - 1);
        lemma_sequence_step(state_after(rule, start, replies.take(late - 1)), replies[late - 1]);
    }
}

/// Whatever the driver reports, the steps are asked for in their order and
/// each at most once: of two moves of a run that ask for a step, the later
/// one asks for a later step.
pub proof fn lemma_steps_run_in_order(
    steps: Seq<StepView>,
    replies: Seq<ReplyView>,
    first: int,
    second: int,
)
    requires
        0 <= first < second < replies.len(),
        turn_at(sequence_rule(), StepSequenceView::start(steps), replies, first).request is Stream,
        turn_at(sequence_rule(), StepSequenceView::start(steps), replies, second).request
            is Stream,
    ensures
        ({
            let rule = sequence_rule();
            let start = StepSequenceView::start(steps);
            let earlier = state_after(rule, start, replies.take(first)).issued as int;
            let later = state_after(rule, start, replies.take(second)).issued as int;
            &&& 0 <= earlier < later < steps.len()
            &&& turn_at(rule, start, replies, first).request == (RequestView::Stream {
                step: steps[earlier].name,
                command: steps[earlier].command,
            })
            &&& turn_at(rule, start, replies, second).request == (RequestView::Stream {
                step: steps[later].name,
                command: steps[later].command,
            })
        }),
{
    let rule = sequence_rule();
    let start = StepSequenceView::start(steps);
    lemma_sequence_run(steps, replies, first, first + 1);
    lemma_sequence_run(steps, replies, first + 1, second);
    lemma_sequence_run(steps, replies, second, second);
    lemma_state_after_next(rule, start, replies, first);
    lemma_sequence_step(state_after(rule, start, replies.take(first)), replies[first]);
    lemma_sequence_step(state_after(rule, start, replies.take(second)), replies[second]);
}

/// After the failure of a step, no further step is asked for, and the
/// outcome is that failure.
pub proof fn lemma_sequence_stops_at_first_failure(
    plan: StepSequenceView,
    failure: FailureView,
    later: ReplyView,
)
    requires
        plan.outcome is None,
        plan.issued > 0,
    ensures
        ({
            let failed = plan.next(ReplyView::Stepped(Err(failure)));
            &&& failed.1 == TurnView::quiet(RequestView::Done)
            &&& failed.0.outcome == Some(Err::<Seq<char>, FailureView>(failure))
            &&& failed.0.next(later) == (failed.0, TurnView::quiet(RequestView::Done))
        }),
{
}

} // verus!
