//! Making sure that a port is free: probe it, and while it still accepts
//! connections, kill the processes that hold it, wait, and probe again, for
//! a bounded number of rounds.

use vstd::prelude::*;
use vstd::string::StringExecFns;
use crate::command::{CommandSpec, CommandSpecView, Platform};
use crate::failure::{Failure, FailureView};
use crate::plan::{
    lemma_state_after_next,
    state_after,
    turn_at,
    Reply,
    ReplyView,
    Request,
    RequestView,
    Turn,
    TurnView,
};
use crate::text::{decimal, decimal_text, decode_lossy, lossy_text, nonblank_lines, texts, trimmed_lines};

verus! {

/// How many rounds of killing are made before the port is given up.
pub const MAX_RECLAIM_ROUNDS: u8 = 5;

/// How long a probe waits for the port to answer, in milliseconds.
pub const PROBE_TIMEOUT_MS: u64 = 200;

/// How long to wait after a round of killing, in milliseconds.
pub const RECLAIM_DELAY_MS: u64 = 300;

/// Where a reclaim plan stands.
#[derive(Clone, Copy, Debug, PartialEq, Eq, Structural)]
pub enum ReclaimPhase {
    Start,
    Probing,
    Listing,
    Killing,
    Waiting,
    Done,
}

/// The command that lists the processes that hold `port`, one identifier on
/// each line.
pub open spec fn spec_list_owners(port: u16, platform: Platform) -> CommandSpecView {
    if platform == Platform::Windows {
        CommandSpecView::new("powershell"@).arg("-NoProfile"@).arg("-Command"@).arg(
            "Get-NetTCPConnection -LocalPort "@ + decimal_text(port as nat)
                + " -ErrorAction SilentlyContinue | Select-Object -ExpandProperty OwningProcess"@,
        )
    } else {
        CommandSpecView::new("lsof"@).arg("-ti"@).arg(":"@ + decimal_text(port as nat))
    }
}

/// The command that kills the process `pid` by force.
pub open spec fn spec_kill(pid: Seq<char>, platform: Platform) -> CommandSpecView {
    if platform == Platform::Windows {
        CommandSpecView::new("taskkill"@).arg("/PID"@).arg(pid).arg("/F"@)
    } else {
        CommandSpecView::new("kill"@).arg("-9"@).arg(pid)
    }
}

/// What is said of a kill command that ended with a non-zero exit status.
pub open spec fn kill_failed_context(
    pid: Seq<char>,
    status: Seq<char>,
    port: u16,
    platform: Platform,
) -> Seq<char> {
    if platform == Platform::Windows {
        "taskkill failed for PID "@ + pid + " on port "@ + decimal_text(port as nat)
    } else {
        "kill -9 "@ + pid + " exited with "@ + status + " for port "@ + decimal_text(port as nat)
    }
}

pub open spec fn unsupported_message() -> Seq<char> {
    "Force killing ports is not supported on this platform."@
}

/// Whether the platform has a way to find and kill the holders of a port.
pub open spec fn can_kill(platform: Platform) -> bool {
    platform.spec_is_unix() || platform == Platform::Windows
}

/// A reclaim plan as a value.
pub struct ReclaimPlanView {
    pub port: u16,
    pub platform: Platform,
    pub phase: ReclaimPhase,
    /// How many rounds of killing have been completed.
    pub round: u8,
    /// The processes found in this round.
    pub pids: Seq<Seq<char>>,
    /// Which of them is being killed.
    pub next_pid: nat,
    pub outcome: Option<Result<(), FailureView>>,
}

impl ReclaimPlanView {
    pub open spec fn start(port: u16, platform: Platform) -> ReclaimPlanView {
        ReclaimPlanView {
            port,
            platform,
            phase: ReclaimPhase::Start,
            round: 0,
            pids: Seq::empty(),
            next_pid: 0,
            outcome: None,
        }
    }

    /// Rounds stay within their bound, the process being killed is one of
    /// those found, and the outcome is there exactly when the plan is done.
    pub open spec fn wf(self) -> bool {
        &&& self.round <= MAX_RECLAIM_ROUNDS
        &&& (self.phase == ReclaimPhase::Listing || self.phase == ReclaimPhase::Killing
            || self.phase == ReclaimPhase::Waiting) ==> self.round < MAX_RECLAIM_ROUNDS
        &&& self.phase == ReclaimPhase::Killing ==> self.next_pid < self.pids.len()
        &&& (self.phase == ReclaimPhase::Done) == (self.outcome is Some)
    }

    pub open spec fn goes(self, phase: ReclaimPhase, request: RequestView) -> (
        ReclaimPlanView,
        TurnView,
    ) {
        (ReclaimPlanView { phase, ..self }, TurnView::quiet(request))
    }

    pub open spec fn ends(self, outcome: Result<(), FailureView>) -> (ReclaimPlanView, TurnView) {
        (
            ReclaimPlanView { phase: ReclaimPhase::Done, outcome: Some(outcome), ..self },
            TurnView::quiet(RequestView::Done),
        )
    }

    pub open spec fn probes(self) -> (ReclaimPlanView, TurnView) {
        self.goes(
            ReclaimPhase::Probing,
            RequestView::ProbePort { port: self.port, timeout_ms: PROBE_TIMEOUT_MS },
        )
    }

    pub open spec fn waits(self) -> (ReclaimPlanView, TurnView) {
        self.goes(ReclaimPhase::Waiting, RequestView::Sleep { millis: RECLAIM_DELAY_MS })
    }

    /// The plan's next state and move on `reply`.
    pub open spec fn next(self, reply: ReplyView) -> (ReclaimPlanView, TurnView) {
        let out_of_turn = self.ends(Err(FailureView::OutOfTurn));
        match self.phase {
            ReclaimPhase::Start => match reply {
                ReplyView::Start => self.probes(),
                _ => out_of_turn,
            },
            ReclaimPhase::Probing => match reply {
                ReplyView::Reachable(false) => self.ends(Ok(())),
                ReplyView::Reachable(true) => if self.round >= MAX_RECLAIM_ROUNDS {
                    self.ends(Err(FailureView::PortStillBound { port: self.port }))
                } else if !can_kill(self.platform) {
                    self.ends(
                        Err(FailureView::UnsupportedPlatform { message: unsupported_message() }),
                    )
                } else {
                    self.goes(
                        ReclaimPhase::Listing,
                        RequestView::Capture(spec_list_owners(self.port, self.platform)),
                    )
                },
                _ => out_of_turn,
            },
            ReclaimPhase::Listing => match reply {
                ReplyView::Captured(Ok(output)) => {
                    let pids = trimmed_lines(lossy_text(output.stdout));
                    if pids.len() == 0 {
                        self.waits()
                    } else {
                        (ReclaimPlanView { pids, next_pid: 0, ..self }).goes(
                            ReclaimPhase::Killing,
                            RequestView::Capture(spec_kill(pids[0], self.platform)),
                        )
                    }
                },
                ReplyView::Captured(Err(detail)) => self.ends(
                    Err(
                        FailureView::Spawn {
                            context: "Failed to inspect active connections on port "@
                                + decimal_text(self.port as nat),
                            detail,
                        },
                    ),
                ),
                _ => out_of_turn,
            },
            ReclaimPhase::Killing => {
                let pid = self.pids[self.next_pid as int];
                match reply {
                    ReplyView::Captured(Ok(output)) => if !output.success {
                        self.ends(
                            Err(
                                FailureView::CommandFailed {
                                    context: kill_failed_context(
                                        pid,
                                        output.status,
                                        self.port,
                                        self.platform,
                                    ),
                                    output: lossy_text(output.stderr),
                                },
                            ),
                        )
                    } else if self.next_pid + 1 < self.pids.len() {
                        (ReclaimPlanView { next_pid: self.next_pid + 1, ..self }).goes(
                            ReclaimPhase::Killing,
                            RequestView::Capture(
                                spec_kill(self.pids[self.next_pid as int + 1], self.platform),
                            ),
                        )
                    } else {
                        self.waits()
                    },
                    ReplyView::Captured(Err(detail)) => self.ends(
                        Err(
                            FailureView::Spawn {
                                context: "Failed to kill PID "@ + pid + " on port "@ + decimal_text(
                                    self.port as nat,
                                ),
                                detail,
                            },
                        ),
                    ),
                    _ => out_of_turn,
                }
            },
            ReclaimPhase::Waiting => match reply {
                ReplyView::Slept => (ReclaimPlanView {
                    round: (self.round + 1) as u8,
                    ..self
                }).probes(),
                _ => out_of_turn,
            },
            ReclaimPhase::Done => (self, TurnView::quiet(RequestView::Done)),
        }
    }
}

pub open spec fn reclaim_outcome_view(outcome: Option<Result<(), Failure>>) -> Option<
    Result<(), FailureView>,
> {
    match outcome {
        Some(Ok(())) => Some(Ok(())),
        Some(Err(failure)) => Some(Err(failure@)),
        None => None,
    }
}

/// The plan that makes sure a port is free.
pub struct ReclaimPlan {
    port: u16,
    platform: Platform,
    phase: ReclaimPhase,
    round: u8,
    pids: Vec<String>,
    next_pid: usize,
    outcome: Option<Result<(), Failure>>,
}

impl View for ReclaimPlan {
    type V = ReclaimPlanView;

    closed spec fn view(&self) -> ReclaimPlanView {
        ReclaimPlanView {
            port: self.port,
            platform: self.platform,
            phase: self.phase,
            round: self.round,
            pids: texts(self.pids@),
            next_pid: self.next_pid as nat,
            outcome: reclaim_outcome_view(self.outcome),
        }
    }
}

/// Plans how to make sure that nothing accepts connections on `port`.
pub fn ensure_port_closed(port: u16, platform: Platform) -> (plan: ReclaimPlan)
    ensures
        plan@ == ReclaimPlanView::start(port, platform),
{
    let plan = ReclaimPlan {
        port,
        platform,
        phase: ReclaimPhase::Start,
        round: 0,
        pids: Vec::new(),
        next_pid: 0,
        outcome: None,
    };
    assert(plan@.pids =~= Seq::empty());
    plan
}

/// The command that lists the processes that hold `port`.
fn list_owners(port: u16, platform: Platform) -> (command: CommandSpec)
    ensures
        command@ == spec_list_owners(port, platform),
{
    let number = decimal(port as u64);
    match platform {
        Platform::Windows => {
            let mut script = String::from_str("Get-NetTCPConnection -LocalPort ");
            script.append(number.as_str());
            script.append(
                " -ErrorAction SilentlyContinue | Select-Object -ExpandProperty OwningProcess",
            );
            CommandSpec::new("powershell").arg("-NoProfile").arg("-Command").arg(script.as_str())
        },
        _ => {
            let mut selector = String::from_str(":");
            selector.append(number.as_str());
            CommandSpec::new("lsof").arg("-ti").arg(selector.as_str())
        },
    }
}

/// The command that kills the process `pid` by force.
fn kill(pid: &str, platform: Platform) -> (command: CommandSpec)
    ensures
        command@ == spec_kill(pid@, platform),
{
    match platform {
        Platform::Windows => CommandSpec::new("taskkill").arg("/PID").arg(pid).arg("/F"),
        _ => CommandSpec::new("kill").arg("-9").arg(pid),
    }
}

impl ReclaimPlan {
    #[verifier::type_invariant]
    spec fn well_formed(self) -> bool {
        &&& self.round <= MAX_RECLAIM_ROUNDS
        &&& (self.phase == ReclaimPhase::Listing || self.phase == ReclaimPhase::Killing
            || self.phase == ReclaimPhase::Waiting) ==> self.round < MAX_RECLAIM_ROUNDS
        &&& self.phase == ReclaimPhase::Killing ==> self.next_pid < self.pids@.len()
    }

    fn ends(&mut self, outcome: Result<(), Failure>) -> (made: Turn)
        ensures
            (final(self)@, made@) == old(self)@.ends(
                match outcome {
                    Ok(()) => Ok(()),
                    Err(failure) => Err(failure@),
                },
            ),
    {
        proof {
            use_type_invariant(&*self);
        }
        self.phase = ReclaimPhase::Done;
        self.outcome = Some(outcome);
        Turn::quiet(Request::Done)
    }

    fn probes(&mut self) -> (made: Turn)
        ensures
            (final(self)@, made@) == old(self)@.probes(),
    {
        proof {
            use_type_invariant(&*self);
        }
        self.phase = ReclaimPhase::Probing;
        Turn::quiet(Request::ProbePort { port: self.port, timeout_ms: PROBE_TIMEOUT_MS })
    }

    fn waits(&mut self) -> (made: Turn)
        requires
            old(self)@.round < MAX_RECLAIM_ROUNDS,
        ensures
            (final(self)@, made@) == old(self)@.waits(),
    {
        proof {
            use_type_invariant(&*self);
        }
        self.phase = ReclaimPhase::Waiting;
        Turn::quiet(Request::Sleep { millis: RECLAIM_DELAY_MS })
    }

    /// Takes the driver's reply and makes the plan's next move.
    pub fn next(&mut self, reply: Reply) -> (turn: Turn)
        ensures
            (final(self)@, turn@) == old(self)@.next(reply@),
    {
        proof {
            use_type_invariant(&*self);
        }
        match self.phase {
            ReclaimPhase::Start => match reply {
                Reply::Start => self.probes(),
                _ => self.ends(Err(Failure::OutOfTurn)),
            },
            ReclaimPhase::Probing => match reply {
                Reply::Reachable(false) => self.ends(Ok(())),
                Reply::Reachable(true) => {
                    if self.round >= MAX_RECLAIM_ROUNDS {
                        self.ends(Err(Failure::PortStillBound { port: self.port }))
                    } else if !(self.platform.is_unix() || self.platform == Platform::Windows) {
                        self.ends(
                            Err(
                                Failure::UnsupportedPlatform {
                                    message: String::from_str(
                                        "Force killing ports is not supported on this platform.",
                                    ),
                                },
                            ),
                        )
                    } else {
                        let command = list_owners(self.port, self.platform);
                        self.phase = ReclaimPhase::Listing;
                        Turn::quiet(Request::Capture(command))
                    }
                },
                _ => self.ends(Err(Failure::OutOfTurn)),
            },
            ReclaimPhase::Listing => match reply {
                Reply::Captured(Ok(output)) => {
                    let listing = decode_lossy(output.stdout.as_slice());
                    let pids = nonblank_lines(listing.as_str());
                    if pids.len() == 0 {
                        self.waits()
                    } else {
                        let command = kill(pids[0].as_str(), self.platform);
                        self.pids = pids;
                        self.next_pid = 0;
                        self.phase = ReclaimPhase::Killing;
                        Turn::quiet(Request::Capture(command))
                    }
                },
                Reply::Captured(Err(detail)) => {
                    let mut context = String::from_str(
                        "Failed to inspect active connections on port ",
                    );
                    context.append(decimal(self.port as u64).as_str());
                    self.ends(Err(Failure::Spawn { context, detail }))
                },
                _ => self.ends(Err(Failure::OutOfTurn)),
            },
            ReclaimPhase::Killing => match reply {
                Reply::Captured(Ok(output)) => {
                    let found = self.pids.len();
                    if !output.success {
                        let context = self.kill_failed(output.status.as_str());
                        let shown = decode_lossy(output.stderr.as_slice());
                        self.ends(Err(Failure::CommandFailed { context, output: shown }))
                    } else if self.next_pid + 1 < found {
                        let command = kill(self.pids[self.next_pid + 1].as_str(), self.platform);
                        self.next_pid = self.next_pid + 1;
                        Turn::quiet(Request::Capture(command))
                    } else {
                        self.waits()
                    }
                },
                Reply::Captured(Err(detail)) => {
                    let mut context = String::from_str("Failed to kill PID ");
                    context.append(self.pids[self.next_pid].as_str());
                    context.append(" on port ");
                    context.append(decimal(self.port as u64).as_str());
                    self.ends(Err(Failure::Spawn { context, detail }))
                },
                _ => self.ends(Err(Failure::OutOfTurn)),
            },
            ReclaimPhase::Waiting => match reply {
                Reply::Slept => {
                    self.phase = ReclaimPhase::Probing;
                    self.round = self.round + 1;
                    Turn::quiet(
                        Request::ProbePort { port: self.port, timeout_ms: PROBE_TIMEOUT_MS },
                    )
                },
                _ => self.ends(Err(Failure::OutOfTurn)),
            },
            ReclaimPhase::Done => Turn::quiet(Request::Done),
        }
    }

    /// What is said of the kill command for the current process when it ends
    /// with a non-zero exit status.
    fn kill_failed(&self, status: &str) -> (context: String)
        requires
            self@.phase == ReclaimPhase::Killing,
        ensures
            context@ == kill_failed_context(
                self@.pids[self@.next_pid as int],
                status@,
                self@.port,
                self@.platform,
            ),
    {
        proof {
            use_type_invariant(self);
        }
        let pid = self.pids[self.next_pid].as_str();
        let number = decimal(self.port as u64);
        match self.platform {
            Platform::Windows => {
                let mut context = String::from_str("taskkill failed for PID ");
                context.append(pid);
                context.append(" on port ");
                context.append(number.as_str());
                context
            },
            _ => {
                let mut context = String::from_str("kill -9 ");
                context.append(pid);
                context.append(" exited with ");
                context.append(status);
                context.append(" for port ");
                context.append(number.as_str());
                context
            },
        }
    }

    /// Where the plan stands.
    pub fn phase(&self) -> (phase: ReclaimPhase)
        ensures
            phase == self@.phase,
    {
        self.phase
    }

    /// A copy of the plan's outcome: `None` while it has none.
    pub fn outcome(&self) -> (outcome: Option<Result<(), Failure>>)
        ensures
            reclaim_outcome_view(outcome) == self@.outcome,
    {
        match &self.outcome {
            Some(Ok(())) => Some(Ok(())),
            Some(Err(failure)) => Some(Err(failure.clone())),
            None => None,
        }
    }

    /// Gives up the plan for its outcome: `None` while it has none.
    pub fn into_outcome(self) -> (outcome: Option<Result<(), Failure>>)
        ensures
            reclaim_outcome_view(outcome) == self@.outcome,
    {
        self.outcome
    }
}

/// The rule of the reclaim plan, as a function.
pub open spec fn reclaim_rule() -> spec_fn(ReclaimPlanView, ReplyView) -> (
    ReclaimPlanView,
    TurnView,
) {
    |plan: ReclaimPlanView, reply: ReplyView| plan.next(reply)
}

impl ReclaimPlanView {
    /// How far the plan is: rounds count most, then the phase within the
    /// round. A plan that is done is furthest.
    pub open spec fn progress(self) -> int {
        match self.phase {
            ReclaimPhase::Start => 0,
            ReclaimPhase::Probing => 5 * self.round + 1,
            ReclaimPhase::Listing => 5 * self.round + 2,
            ReclaimPhase::Killing => 5 * self.round + 3,
            ReclaimPhase::Waiting => 5 * self.round + 4,
            ReclaimPhase::Done => 5 * MAX_RECLAIM_ROUNDS + 5,
        }
    }
}

/// One move of a well-formed plan: it stays well formed and keeps its port
/// and platform; it never goes back; once done it stays as it is; and it
/// asks for a command to be run only after a probe has found the port
/// reachable.
pub proof fn lemma_reclaim_step(plan: ReclaimPlanView, reply: ReplyView)
    requires
        plan.wf(),
    ensures
        plan.next(reply).0.wf(),
        plan.next(reply).0.port == plan.port,
        plan.next(reply).0.platform == plan.platform,
        plan.next(reply).0.progress() >= plan.progress(),
        plan.phase == ReclaimPhase::Done ==> plan.next(reply) == (
            plan,
            TurnView::quiet(RequestView::Done),
        ),
        plan.next(reply).1.request is Capture ==> plan.phase != ReclaimPhase::Start && !(
        plan.phase == ReclaimPhase::Probing && reply == ReplyView::Reachable(false)),
{
}

/// Where the probe of a fresh plan finds nothing listening, the plan ends
/// with success at once, and no move of the run asks for a command to be
/// run: no process is looked for and none is killed.
pub proof fn lemma_free_port_needs_no_kill(
    port: u16,
    platform: Platform,
    replies: Seq<ReplyView>,
    index: int,
)
    requires
        replies.len() >= 2,
        replies[0] == ReplyView::Start,
        replies[1] == ReplyView::Reachable(false),
        0 <= index < replies.len(),
    ensures
        !(turn_at(reclaim_rule(), ReclaimPlanView::start(port, platform), replies, index).request
            is Capture),
        state_after(reclaim_rule(), ReclaimPlanView::start(port, platform), replies).outcome
            == Some(Ok::<(), FailureView>(())),
{
    let start = ReclaimPlanView::start(port, platform);
    lemma_free_port_run(port, platform, replies, index);
    lemma_free_port_run(port, platform, replies, replies.len() as int);
    assert(replies.take(replies.len() as int) == replies);
    if index == 0 {
        assert(replies.take(0) == Seq::<ReplyView>::empty());
    } else if index == 1 {
        lemma_free_port_run(port, platform, replies, 1);
    }
}

/// The states of a run whose first probe finds nothing listening.
proof fn lemma_free_port_run(port: u16, platform: Platform, replies: Seq<ReplyView>, upto: int)
    requires
        replies.len() >= 2,
        replies[0] == ReplyView::Start,
        replies[1] == ReplyView::Reachable(false),
        0 <= upto <= replies.len(),
    ensures
        upto == 1 ==> state_after(
            reclaim_rule(),
            ReclaimPlanView::start(port, platform),
            replies.take(upto),
        ) == ReclaimPlanView::start(port, platform).probes().0,
        upto >= 2 ==> state_after(
            reclaim_rule(),
            ReclaimPlanView::start(port, platform),
            replies.take(upto),
        ) == ReclaimPlanView::start(port, platform).probes().0.ends(Ok(())).0,
    decreases upto,
{
    let start = ReclaimPlanView::start(port, platform);
    if upto >= 1 {
        lemma_free_port_run(port, platform, replies, upto - 1);
        lemma_state_after_next(reclaim_rule(), start, replies, upto - 1);
        if upto == 1 {
            assert(replies.take(0) == Seq::<ReplyView>::empty());
        }
    }
}

/// Along any run of a well-formed plan, the plan stays well formed and
/// never goes back.
pub proof fn lemma_reclaim_run(
    start: ReclaimPlanView,
    replies: Seq<ReplyView>,
    early: int,
    late: int,
)
    requires
        start.wf(),
        0 <= early <= late <= replies.len(),
    ensures
        state_after(reclaim_rule(), start, replies.take(early)).wf(),
        state_after(reclaim_rule(), start, replies.take(late)).wf(),
        state_after(reclaim_rule(), start, replies.take(early)).progress() <= state_after(
            reclaim_rule(),
            start,
            replies.take(late),
        ).progress(),
    decreases late,
{
    let rule = reclaim_rule();
    if late == 0 {
        assert(replies.take(0) == Seq::<ReplyView>::empty());
    } else if early == late {
        lemma_reclaim_run(start, replies, early - 1, late - 1);
        lemma_state_after_next(rule, start, replies, late - 1);
        lemma_reclaim_step(state_after(rule, start, replies.take(late - 1)), replies[late - 1]);
    } else {
        lemma_reclaim_run(start, replies, early, late - 1);
        lemma_state_after_next(rule, start, replies, late - 1);
        lemma_reclaim_step(state_after(rule, start, replies.take(late - 1)), replies[late - 1]);
    }
}

/// Whether the move from `before` to `after` begins a round of killing.
pub open spec fn begins_round(before: ReclaimPlanView, after: ReclaimPlanView) -> bool {
    before.phase == ReclaimPhase::Probing && after.phase == ReclaimPhase::Listing
}

/// Rounds of killing are bounded: each one that begins in a run has a number
/// of its own below the maximum, so at most that many begin.
pub proof fn lemma_rounds_are_bounded(
    start: ReclaimPlanView,
    replies: Seq<ReplyView>,
    first: int,
    second: int,
)
    requires
        start.wf(),
        0 <= first < second < replies.len(),
        begins_round(
            state_after(reclaim_rule(), start, replies.take(first)),
            state_after(reclaim_rule(), start, replies.take(first + 1)),
        ),
        begins_round(
            state_after(reclaim_rule(), start, replies.take(second)),
            state_after(reclaim_rule(), start, replies.take(second + 1)),
        ),
    ensures
        state_after(reclaim_rule(), start, replies.take(first)).round < state_after(
            reclaim_rule(),
            start,
            replies.take(second),
        ).round,
        state_after(reclaim_rule(), start, replies.take(second)).round < MAX_RECLAIM_ROUNDS,
{
    let rule = reclaim_rule();
    lemma_reclaim_run(start, replies, first, first + 1);
    lemma_reclaim_run(start, replies, first + 1, second);
    lemma_reclaim_run(start, replies, second, second + 1);
    lemma_state_after_next(rule, start, replies, first);
    lemma_state_after_next(rule, start, replies, second);
    lemma_reclaim_step(state_after(rule, start, replies.take(first)), replies[first]);
    lemma_reclaim_step(state_after(rule, start, replies.take(second)), replies[second]);
}

/// When the port still accepts connections after the last round, the plan
/// ends with the failure that names the port.
pub proof fn lemma_reclaim_gives_up(plan: ReclaimPlanView)
    requires
        plan.phase == ReclaimPhase::Probing,
        plan.round >= MAX_RECLAIM_ROUNDS,
    ensures
        plan.next(ReplyView::Reachable(true)).0.outcome == Some(
            Err::<(), FailureView>(FailureView::PortStillBound { port: plan.port }),
        ),
        plan.next(ReplyView::Reachable(true)).1 == TurnView::quiet(RequestView::Done),
{
}

} // verus!
