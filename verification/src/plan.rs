//! The vocabulary between a plan and its driver. A plan decides; it asks the
//! driver for one thing at a time with a `Request`, and the driver answers
//! with the `Reply` that belongs to it.

use vstd::prelude::*;
use vstd::string::StringExecFns;
use crate::command::{CommandOutput, CommandOutputView, CommandSpec, CommandSpecView};
use crate::failure::{Failure, FailureView};
use crate::stream::{line_views, StreamLine, StreamLineView};

verus! {

/// A question about one path: the directory `base` itself, or the entry
/// `child` inside it.
#[derive(Clone, Debug, PartialEq, Eq)]
pub struct PathProbe {
    pub base: String,
    pub child: Option<String>,
    /// Whether the path must be a directory, or may be anything that exists.
    pub must_be_dir: bool,
}

pub struct PathProbeView {
    pub base: Seq<char>,
    pub child: Option<Seq<char>>,
    pub must_be_dir: bool,
}

impl View for PathProbe {
    type V = PathProbeView;

    open spec fn view(&self) -> PathProbeView {
        PathProbeView {
            base: self.base@,
            child: match self.child {
                Some(child) => Some(child@),
                None => None,
            },
            must_be_dir: self.must_be_dir,
        }
    }
}

pub open spec fn probe_views(probes: Seq<PathProbe>) -> Seq<PathProbeView> {
    probes.map_values(|probe: PathProbe| probe@)
}

/// What a plan asks of its driver.
#[derive(Clone, Debug, PartialEq, Eq)]
pub enum Request {
    /// Answer each question about a path; the reply is `Probed`, one flag
    /// for each question, in order.
    Probe(Vec<PathProbe>),
    /// Say whether the directory has no entry; the reply is `Emptiness`.
    InspectEmpty { dir: String },
    /// Remove the directory and all it holds; the reply is `Removed`.
    RemoveDir { dir: String },
    /// Run the command to completion and capture its output; the reply is
    /// `Captured`.
    Capture(CommandSpec),
    /// Run the command as a streamed step; the reply is `Stepped`.
    Stream { step: String, command: CommandSpec },
    /// Try to connect to the port on the local host within the time given;
    /// the reply is `Reachable`.
    ProbePort { port: u16, timeout_ms: u64 },
    /// Let the time pass; the reply is `Slept`.
    Sleep { millis: u64 },
    /// Terminate the process whose handle was given up for this and wait
    /// for its exit; the reply is `Terminated`.
    Terminate,
    /// Nothing more: the plan has its outcome.
    Done,
}

pub enum RequestView {
    Probe(Seq<PathProbeView>),
    InspectEmpty { dir: Seq<char> },
    RemoveDir { dir: Seq<char> },
    Capture(CommandSpecView),
    Stream { step: Seq<char>, command: CommandSpecView },
    ProbePort { port: u16, timeout_ms: u64 },
    Sleep { millis: u64 },
    Terminate,
    Done,
}

impl View for Request {
    type V = RequestView;

    open spec fn view(&self) -> RequestView {
        match *self {
            Request::Probe(probes) => RequestView::Probe(probe_views(probes@)),
            Request::InspectEmpty { dir } => RequestView::InspectEmpty { dir: dir@ },
            Request::RemoveDir { dir } => RequestView::RemoveDir { dir: dir@ },
            Request::Capture(command) => RequestView::Capture(command@),
            Request::Stream { step, command } => RequestView::Stream {
                step: step@,
                command: command@,
            },
            Request::ProbePort { port, timeout_ms } => RequestView::ProbePort { port, timeout_ms },
            Request::Sleep { millis } => RequestView::Sleep { millis },
            Request::Terminate => RequestView::Terminate,
            Request::Done => RequestView::Done,
        }
    }
}

/// What the driver reports back.
#[derive(Debug, PartialEq, Eq)]
pub enum Reply {
    /// Nothing was asked yet: the plan is to begin.
    Start,
    Probed(Vec<bool>),
    Emptiness(Result<bool, String>),
    Removed(Result<(), String>),
    /// The output of the command, or why it could not be run.
    Captured(Result<CommandOutput, String>),
    Stepped(Result<(), Failure>),
    Reachable(bool),
    Slept,
    /// The process is gone, or why it could not be terminated.
    Terminated(Result<(), String>),
}

pub enum ReplyView {
    Start,
    Probed(Seq<bool>),
    Emptiness(Result<bool, Seq<char>>),
    Removed(Result<(), Seq<char>>),
    Captured(Result<CommandOutputView, Seq<char>>),
    Stepped(Result<(), FailureView>),
    Reachable(bool),
    Slept,
    Terminated(Result<(), Seq<char>>),
}

impl View for Reply {
    type V = ReplyView;

    open spec fn view(&self) -> ReplyView {
        match *self {
            Reply::Start => ReplyView::Start,
            Reply::Probed(flags) => ReplyView::Probed(flags@),
            Reply::Emptiness(found) => ReplyView::Emptiness(
                match found {
                    Ok(empty) => Ok(empty),
                    Err(detail) => Err(detail@),
                },
            ),
            Reply::Removed(done) => ReplyView::Removed(
                match done {
                    Ok(()) => Ok(()),
                    Err(detail) => Err(detail@),
                },
            ),
            Reply::Captured(ran) => ReplyView::Captured(
                match ran {
                    Ok(output) => Ok(output@),
                    Err(detail) => Err(detail@),
                },
            ),
            Reply::Stepped(ended) => ReplyView::Stepped(
                match ended {
                    Ok(()) => Ok(()),
                    Err(failure) => Err(failure@),
                },
            ),
            Reply::Reachable(open) => ReplyView::Reachable(open),
            Reply::Slept => ReplyView::Slept,
            Reply::Terminated(ended) => ReplyView::Terminated(
                match ended {
                    Ok(()) => Ok(()),
                    Err(detail) => Err(detail@),
                },
            ),
        }
    }
}

/// One move of a plan: the lines to show first, then what to do.
#[derive(Clone, Debug, PartialEq, Eq)]
pub struct Turn {
    pub logs: Vec<StreamLine>,
    pub request: Request,
}

pub struct TurnView {
    pub logs: Seq<StreamLineView>,
    pub request: RequestView,
}

impl View for Turn {
    type V = TurnView;

    open spec fn view(&self) -> TurnView {
        TurnView { logs: line_views(self.logs@), request: self.request@ }
    }
}

impl TurnView {
    /// A move that shows nothing.
    pub open spec fn quiet(request: RequestView) -> TurnView {
        TurnView { logs: Seq::empty(), request }
    }

    /// A move that shows one line first.
    pub open spec fn saying(line: StreamLineView, request: RequestView) -> TurnView {
        TurnView { logs: seq![line], request }
    }
}

impl Turn {
    /// A move that shows nothing.
    pub fn quiet(request: Request) -> (turn: Turn)
        ensures
            turn@ == TurnView::quiet(request@),
    {
        let turn = Turn { logs: Vec::new(), request };
        assert(turn@.logs =~= Seq::empty());
        turn
    }

    /// A move that shows one line first.
    pub fn saying(line: StreamLine, request: Request) -> (turn: Turn)
        ensures
            turn@ == TurnView::saying(line@, request@),
    {
        let mut logs: Vec<StreamLine> = Vec::new();
        logs.push(line);
        let turn = Turn { logs, request };
        assert(turn@.logs =~= seq![line@]);
        turn
    }
}

/// The question whether `base` is a directory.
pub open spec fn spec_dir_probe(base: Seq<char>) -> PathProbeView {
    PathProbeView { base, child: None, must_be_dir: true }
}

/// The question whether `base` is a directory.
pub fn dir_probe(base: &str) -> (probe: PathProbe)
    ensures
        probe@ == spec_dir_probe(base@),
{
    PathProbe { base: String::from_str(base), child: None, must_be_dir: true }
}

/// The question whether `child` exists inside `base`.
pub open spec fn spec_child_probe(base: Seq<char>, child: Seq<char>, must_be_dir: bool) -> PathProbeView {
    PathProbeView { base, child: Some(child), must_be_dir }
}

/// The question whether `child` exists inside `base`.
pub fn child_probe(base: &str, child: &str, must_be_dir: bool) -> (probe: PathProbe)
    ensures
        probe@ == spec_child_probe(base@, child@, must_be_dir),
{
    PathProbe { base: String::from_str(base), child: Some(String::from_str(child)), must_be_dir }
}

/// What a plan reports when all went well and there is nothing more to say.
pub open spec fn success_text() -> Seq<char> {
    "SUCCESS"@
}

/// What a plan that reports a text came to, if it has come to anything.
pub open spec fn outcome_view(outcome: Option<Result<String, Failure>>) -> Option<
    Result<Seq<char>, FailureView>,
> {
    match outcome {
        Some(Ok(text)) => Some(Ok(text@)),
        Some(Err(failure)) => Some(Err(failure@)),
        None => None,
    }
}

/// The state of a plan that began in `start` and has taken `replies` in
/// order, where `step` is the plan's rule from state and reply to next state
/// and move.
pub open spec fn state_after<S>(
    step: spec_fn(S, ReplyView) -> (S, TurnView),
    start: S,
    replies: Seq<ReplyView>,
) -> S
    decreases replies.len(),
{
    if replies.len() == 0 {
        start
    } else {
        step(state_after(step, start, replies.drop_last()), replies.last()).0
    }
}

/// The move that the plan makes on reply number `index` of `replies`.
pub open spec fn turn_at<S>(
    step: spec_fn(S, ReplyView) -> (S, TurnView),
    start: S,
    replies: Seq<ReplyView>,
    index: int,
) -> TurnView {
    step(state_after(step, start, replies.take(index)), replies[index]).1
}

/// The state after one more reply is the rule applied to the state before.
pub proof fn lemma_state_after_next<S>(
    step: spec_fn(S, ReplyView) -> (S, TurnView),
    start: S,
    replies: Seq<ReplyView>,
    index: int,
)
    requires
        0 <= index < replies.len(),
    ensures
        state_after(step, start, replies.take(index + 1)) == step(
            state_after(step, start, replies.take(index)),
            replies[index],
        ).0,
{
    let longer = replies.take(index + 1);
    assert(longer.drop_last() == replies.take(index));
    assert(longer.last() == replies[index]);
}

} // verus!
