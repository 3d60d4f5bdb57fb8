//! The one supervised server process: who holds its handle, when a start is
//! accepted, what a status query reports, and how a stop gives the handle up
//! and frees the port. The supervisor keeps a handle of any type; the status
//! query that polls the process itself is for handles of spawned processes.

use vstd::prelude::*;
use vstd::string::StringExecFns;
use crate::command::{CommandSpec, CommandSpecView, Platform};
use crate::failure::{Failure, FailureView};
use crate::plan::{
    child_probe,
    probe_views,
    spec_child_probe,
    PathProbe,
    PathProbeView,
    Reply,
    ReplyView,
    Request,
    RequestView,
    Turn,
    TurnView,
};
use crate::port::{
    ensure_port_closed,
    lemma_reclaim_step,
    ReclaimPhase,
    ReclaimPlan,
    ReclaimPlanView,
};
use crate::stream::{ForwarderView, StreamForwarder, StreamSource};
use crate::text::{decimal, decimal_text};

verus! {

/// The port on which the server listens.
pub const SERVER_PORT: u16 = 7860;

/// What a caller is told of the server.
#[derive(Clone, Copy, Debug, PartialEq, Eq, Structural)]
pub enum ServerStatus {
    Running,
    Stopped,
    Starting,
}

/// What the supervisor holds: nothing, the promise of a handle while a start
/// is under way, or the handle of the running server.
pub enum Supervision<H> {
    Stopped,
    Starting,
    Running(H),
}

impl<H> Supervision<H> {
    /// The status that goes with what is held.
    pub open spec fn status(self) -> ServerStatus {
        match self {
            Supervision::Stopped => ServerStatus::Stopped,
            Supervision::Starting => ServerStatus::Starting,
            Supervision::Running(_) => ServerStatus::Running,
        }
    }
}

/// How to launch the server.
#[derive(Clone, Debug, PartialEq, Eq)]
pub struct ServerLaunch {
    pub target_dir: String,
    pub host: String,
    pub port: u16,
    pub device: String,
    pub precision: Option<String>,
}

pub struct ServerLaunchView {
    pub target_dir: Seq<char>,
    pub host: Seq<char>,
    pub port: u16,
    pub device: Seq<char>,
    pub precision: Option<Seq<char>>,
}

impl View for ServerLaunch {
    type V = ServerLaunchView;

    open spec fn view(&self) -> ServerLaunchView {
        ServerLaunchView {
            target_dir: self.target_dir@,
            host: self.host@,
            port: self.port,
            device: self.device@,
            precision: match self.precision {
                Some(precision) => Some(precision@),
                None => None,
            },
        }
    }
}

impl ServerLaunchView {
    /// The command that runs the server: the web interface on the given host
    /// and port, in half precision where that was asked for, with the CUDA
    /// kernel where the device is CUDA.
    pub open spec fn command(self) -> CommandSpecView {
        let base = CommandSpecView::new("uv"@).arg("run"@).arg("webui.py"@).arg("--host"@).arg(
            self.host,
        ).arg("--port"@).arg(decimal_text(self.port as nat)).current_dir(self.target_dir);
        let with_precision = if self.precision == Some("fp16"@) {
            base.arg("--fp16"@)
        } else {
            base
        };
        if self.device == "cuda"@ {
            with_precision.arg("--cuda_kernel"@)
        } else {
            with_precision
        }
    }

    /// What must be there before the server can start: the target directory,
    /// and the web interface in it.
    pub open spec fn probes(self) -> Seq<PathProbeView> {
        seq![
            PathProbeView { base: self.target_dir, child: None, must_be_dir: false },
            spec_child_probe(self.target_dir, "webui.py"@, false),
        ]
    }
}

/// Whether `text` is exactly `word`.
fn is_word(text: &String, word: &str) -> (same: bool)
    ensures
        same == (text@ == word@),
{
    *text == String::from_str(word)
}

impl ServerLaunch {
    /// The command that runs the server.
    pub fn command(&self) -> (command: CommandSpec)
        ensures
            command@ == self@.command(),
    {
        let mut command = CommandSpec::new("uv").arg("run").arg("webui.py").arg("--host").arg(
            self.host.as_str(),
        ).arg("--port").arg(decimal(self.port as u64).as_str()).current_dir(
            self.target_dir.as_str(),
        );
        let half = match &self.precision {
            Some(precision) => is_word(precision, "fp16"),
            None => false,
        };
        if half {
            command = command.arg("--fp16");
        }
        if is_word(&self.device, "cuda") {
            command = command.arg("--cuda_kernel");
        }
        command
    }

    /// The questions to answer before a start, in the order in which
    /// `start_index_tts_server` takes their answers.
    pub fn probes(&self) -> (probes: Vec<PathProbe>)
        ensures
            probe_views(probes@) == self@.probes(),
    {
        let mut probes: Vec<PathProbe> = Vec::new();
        probes.push(
            PathProbe { base: self.target_dir.clone(), child: None, must_be_dir: false },
        );
        probes.push(child_probe(self.target_dir.as_str(), "webui.py", false));
        assert(probe_views(probes@) =~= self@.probes());
        probes
    }
}

pub open spec fn missing_dir_message(dir: Seq<char>) -> Seq<char> {
    "Target directory does not exist: "@ + dir
}

pub open spec fn missing_entry_message(dir: Seq<char>) -> Seq<char> {
    "webui.py not found in "@ + dir + ". Please complete the deployment first."@
}

/// What a start request does to what is held, and what it answers: refused
/// while anything is held or promised; refused, with nothing changed, where
/// the directory or the web interface is missing; else a start is promised
/// and the command to spawn is handed out.
pub open spec fn spec_start<H>(
    held: Supervision<H>,
    launch: ServerLaunchView,
    dir_exists: bool,
    entry_exists: bool,
) -> (Supervision<H>, Result<CommandSpecView, FailureView>) {
    if !(held is Stopped) {
        (held, Err(FailureView::AlreadyRunning))
    } else if !dir_exists {
        (held, Err(FailureView::Rejected { message: missing_dir_message(launch.target_dir) }))
    } else if !entry_exists {
        (held, Err(FailureView::Rejected { message: missing_entry_message(launch.target_dir) }))
    } else {
        (Supervision::Starting, Ok(launch.command()))
    }
}

/// What the result of spawning does: the handle is held from then on, or the
/// promise is withdrawn. Where no start is promised, because none was asked
/// for or a stop has withdrawn it, nothing changes, and a handle that came
/// is refused: it is handed back, the third part of the result, so that its
/// process can be terminated.
pub open spec fn spec_started<H>(held: Supervision<H>, spawned: Result<H, FailureView>) -> (
    Supervision<H>,
    Result<ServerStatus, FailureView>,
    Option<H>,
) {
    if !(held is Starting) {
        (
            held,
            Err(FailureView::OutOfTurn),
            match spawned {
                Ok(handle) => Some(handle),
                Err(_) => None,
            },
        )
    } else {
        match spawned {
            Ok(handle) => (Supervision::Running(handle), Ok(ServerStatus::Starting), None),
            Err(failure) => (Supervision::Stopped, Err(failure), None),
        }
    }
}

/// What a status query does. `poll` is what a poll of the held handle
/// found, without waiting: whether the process has exited, or why the poll
/// failed; `None` where no poll was made.
///
/// Where no handle is held, be it that nothing is under way or that a start
/// is, the answer is stopped and nothing changes. A held handle is reported
/// as running only on a poll that found the process alive; an exit that was
/// seen clears the handle and is reported as stopped; a held handle without
/// a poll is a query out of turn.
pub open spec fn spec_status<H>(held: Supervision<H>, poll: Option<Result<bool, Seq<char>>>) -> (
    Supervision<H>,
    Result<ServerStatus, FailureView>,
) {
    match held {
        Supervision::Running(handle) => match poll {
            Some(Ok(true)) => (Supervision::Stopped, Ok(ServerStatus::Stopped)),
            Some(Ok(false)) => (held, Ok(ServerStatus::Running)),
            Some(Err(detail)) => (
                held,
                Err(FailureView::Io { context: "Error checking child status"@, detail }),
            ),
            None => (held, Err(FailureView::OutOfTurn)),
        },
        _ => (held, Ok(ServerStatus::Stopped)),
    }
}

/// What a stop request does: the handle, if one is held, is given up to the
/// caller, who is to terminate the process, and a start that is under way
/// loses its promise. Nothing is held or under way afterwards.
pub open spec fn spec_stop<H>(held: Supervision<H>) -> (Supervision<H>, Option<H>) {
    match held {
        Supervision::Running(handle) => (Supervision::Stopped, Some(handle)),
        _ => (Supervision::Stopped, None),
    }
}

/// What putting a handle back does: it is held again, and a handle that
/// was taken up in the meantime is pushed out.
pub open spec fn spec_restore<H>(held: Supervision<H>, handle: H) -> (Supervision<H>, Option<H>) {
    (
        Supervision::Running(handle),
        match held {
            Supervision::Running(other) => Some(other),
            _ => None,
        },
    )
}

/// Holds the handle of the one supervised server.
pub struct ServerChildProcess<H> {
    held: Supervision<H>,
}

impl<H> View for ServerChildProcess<H> {
    type V = Supervision<H>;

    closed spec fn view(&self) -> Supervision<H> {
        self.held
    }
}

pub open spec fn command_result_view(result: Result<CommandSpec, Failure>) -> Result<
    CommandSpecView,
    FailureView,
> {
    match result {
        Ok(command) => Ok(command@),
        Err(failure) => Err(failure@),
    }
}

pub open spec fn status_result_view(result: Result<ServerStatus, Failure>) -> Result<
    ServerStatus,
    FailureView,
> {
    match result {
        Ok(status) => Ok(status),
        Err(failure) => Err(failure@),
    }
}

pub open spec fn spawned_view<H>(spawned: Result<H, Failure>) -> Result<H, FailureView> {
    match spawned {
        Ok(handle) => Ok(handle),
        Err(failure) => Err(failure@),
    }
}

pub open spec fn poll_view(poll: Option<Result<bool, String>>) -> Option<Result<bool, Seq<char>>> {
    match poll {
        Some(Ok(exited)) => Some(Ok(exited)),
        Some(Err(detail)) => Some(Err(detail@)),
        None => None,
    }
}

impl<H> ServerChildProcess<H> {
    /// A supervisor that holds nothing.
    pub fn new() -> (state: ServerChildProcess<H>)
        ensures
            state@ == Supervision::<H>::Stopped,
    {
        ServerChildProcess { held: Supervision::Stopped }
    }

    /// The supervisor's own state, without a poll: stopped, starting while
    /// a start is under way, or running while a handle is held.
    pub fn status(&self) -> (status: ServerStatus)
        ensures
            status == self@.status(),
    {
        match &self.held {
            Supervision::Stopped => ServerStatus::Stopped,
            Supervision::Starting => ServerStatus::Starting,
            Supervision::Running(_) => ServerStatus::Running,
        }
    }

    /// The held handle, to poll it.
    pub fn handle_mut(&mut self) -> (handle: Option<&mut H>)
        ensures
            match handle {
                Some(handle) => old(self)@ == Supervision::Running(*handle) && final(self)@
                    == Supervision::Running(*final(handle)),
                None => !(old(self)@ is Running) && final(self)@ == old(self)@,
            },
    {
        match &mut self.held {
            Supervision::Running(handle) => Some(handle),
            _ => None,
        }
    }
}

/// Accepts or refuses the request to start the server. Accepted, it hands
/// out the command to spawn, and the supervisor counts as starting until
/// `server_started` brings the result.
pub fn start_index_tts_server<H>(
    state: &mut ServerChildProcess<H>,
    launch: &ServerLaunch,
    dir_exists: bool,
    entry_exists: bool,
) -> (result: Result<CommandSpec, Failure>)
    ensures
        (final(state)@, command_result_view(result)) == spec_start(
            old(state)@,
            launch@,
            dir_exists,
            entry_exists,
        ),
{
    match &state.held {
        Supervision::Stopped => {},
        _ => {
            return Err(Failure::AlreadyRunning);
        },
    }
    if !dir_exists {
        let mut message = String::from_str("Target directory does not exist: ");
        message.append(launch.target_dir.as_str());
        return Err(Failure::Rejected { message });
    }
    if !entry_exists {
        let mut message = String::from_str("webui.py not found in ");
        message.append(launch.target_dir.as_str());
        message.append(". Please complete the deployment first.");
        return Err(Failure::Rejected { message });
    }
    state.held = Supervision::Starting;
    Ok(launch.command())
}

/// The failure of a start whose process could not be created.
pub fn start_failure(detail: &str) -> (failure: Failure)
    ensures
        failure@ == (FailureView::Spawn { context: "Failed to start server"@, detail: detail@ }),
{
    Failure::Spawn {
        context: String::from_str("Failed to start server"),
        detail: String::from_str(detail),
    }
}

/// The failure of a start whose process came without the stream named.
pub fn capture_failure(stream: StreamSource) -> (failure: Failure)
    ensures
        failure@ == (FailureView::Rejected {
            message: "Failed to capture "@ + stream.spec_name(),
        }),
{
    let mut message = String::from_str("Failed to capture ");
    message.append(stream.name());
    Failure::Rejected { message }
}

/// Takes the result of spawning the server. The answer comes with the
/// handle that was refused, if one was: its process is not supervised and
/// is the caller's to terminate.
pub fn server_started<H>(state: &mut ServerChildProcess<H>, spawned: Result<H, Failure>) -> (answer: (
    Result<ServerStatus, Failure>,
    Option<H>,
))
    ensures
        (final(state)@, status_result_view(answer.0), answer.1) == spec_started(
            old(state)@,
            spawned_view(spawned),
        ),
{
    match &state.held {
        Supervision::Starting => {},
        _ => {
            let refused = match spawned {
                Ok(handle) => Some(handle),
                Err(_) => None,
            };
            return (Err(Failure::OutOfTurn), refused);
        },
    }
    match spawned {
        Ok(handle) => {
            state.held = Supervision::Running(handle);
            (Ok(ServerStatus::Starting), None)
        },
        Err(failure) => {
            state.held = Supervision::Stopped;
            (Err(failure), None)
        },
    }
}

/// Answers a status query from what is held and what a poll of the handle
/// found.
pub fn status_after_poll<H>(state: &mut ServerChildProcess<H>, poll: Option<Result<bool, String>>) -> (result:
    Result<ServerStatus, Failure>)
    ensures
        (final(state)@, status_result_view(result)) == spec_status(old(state)@, poll_view(poll)),
{
    match &state.held {
        Supervision::Running(_) => {},
        _ => {
            return Ok(ServerStatus::Stopped);
        },
    }
    match poll {
        Some(Ok(true)) => {
            state.held = Supervision::Stopped;
            Ok(ServerStatus::Stopped)
        },
        Some(Ok(false)) => Ok(ServerStatus::Running),
        Some(Err(detail)) => Err(
            Failure::Io { context: String::from_str("Error checking child status"), detail },
        ),
        None => Err(Failure::OutOfTurn),
    }
}

/// The handle of a spawned process.
#[verifier::external_type_specification]
#[verifier::external_body]
pub struct ExChild(tokio::process::Child);

/// Asks with `tokio::process::Child::try_wait` whether the process has
/// exited; that call does not wait for the process. The answer is whether an
/// exit status was there, or the text of the error.
///
/// Trusted, and nothing is claimed: what comes back depends on the process.
#[verifier::external_body]
pub(crate) fn poll_child(child: &mut tokio::process::Child) -> (poll: Result<bool, String>) {
    match child.try_wait() {
        Ok(status) => Ok(status.is_some()),
        Err(error) => Err(error.to_string()),
    }
}

/// Answers a status query: polls the held process, if there is one, without
/// waiting for it, and settles the status by what the poll found. Without a
/// held process nothing changes and the answer is stopped, also while a
/// start is under way. With one, either its exit was seen, and it is
/// dropped and reported as stopped; or it is kept, and reported as running
/// or, where the poll failed, with that failure. So an answer is running or
/// stopped, never starting; it is running exactly when a handle is held
/// afterwards; and a failure leaves the handle held.
pub fn get_server_status(state: &mut ServerChildProcess<tokio::process::Child>) -> (result: Result<
    ServerStatus,
    Failure,
>)
    ensures
        !(old(state)@ is Running) ==> final(state)@ == old(state)@ && status_result_view(result)
            == Ok::<ServerStatus, FailureView>(ServerStatus::Stopped),
        result matches Ok(status) ==> status != ServerStatus::Starting && (status
            == ServerStatus::Running <==> final(state)@ is Running),
        result is Err ==> final(state)@ is Running,
        old(state)@ is Running ==> {
            ||| final(state)@ is Stopped && status_result_view(result) == Ok::<
                ServerStatus,
                FailureView,
            >(ServerStatus::Stopped)
            ||| final(state)@ is Running && status_result_view(result) == Ok::<
                ServerStatus,
                FailureView,
            >(ServerStatus::Running)
            ||| final(state)@ is Running && (status_result_view(result) matches Err(
                FailureView::Io { context, .. },
            ) && context == "Error checking child status"@)
        },
{
    let poll = match state.handle_mut() {
        Some(child) => Some(poll_child(child)),
        None => None,
    };
    status_after_poll(state, poll)
}

/// Where a stop stands.
#[derive(Clone, Copy, Debug, PartialEq, Eq, Structural)]
pub enum StopPhase {
    Start,
    Terminating,
    Reclaiming,
    Done,
}

/// A stop as a value: whether a process is to be terminated, where the stop
/// stands, the plan that frees the port, and the outcome once there is one.
pub struct StopPlanView {
    pub held: bool,
    pub phase: StopPhase,
    pub reclaim: ReclaimPlanView,
    pub outcome: Option<Result<ServerStatus, FailureView>>,
}

impl StopPlanView {
    pub open spec fn start(held: bool, platform: Platform) -> StopPlanView {
        StopPlanView {
            held,
            phase: StopPhase::Start,
            reclaim: ReclaimPlanView::start(SERVER_PORT, platform),
            outcome: None,
        }
    }

    /// Before the port is dealt with its plan has not begun; while it is
    /// dealt with, its plan is under way and well formed; and the outcome is
    /// there exactly when the stop is done.
    pub open spec fn wf(self) -> bool {
        &&& self.reclaim.wf()
        &&& (self.phase == StopPhase::Start || self.phase == StopPhase::Terminating)
            ==> self.reclaim.phase == ReclaimPhase::Start
        &&& self.phase == StopPhase::Reclaiming ==> self.reclaim.phase != ReclaimPhase::Start
            && self.reclaim.phase != ReclaimPhase::Done
        &&& (self.phase == StopPhase::Done) == (self.outcome is Some)
    }

    pub open spec fn ends(self, outcome: Result<ServerStatus, FailureView>) -> (
        StopPlanView,
        TurnView,
    ) {
        (
            StopPlanView { phase: StopPhase::Done, outcome: Some(outcome), ..self },
            TurnView::quiet(RequestView::Done),
        )
    }

    /// The plan that frees the port takes `reply`. While it asks for
    /// something, so does the stop; when it is done, the stop ends: stopped
    /// where the port is free, the failure where it is not.
    pub open spec fn reclaims(self, reply: ReplyView) -> (StopPlanView, TurnView) {
        let moved = self.reclaim.next(reply);
        let on = StopPlanView { phase: StopPhase::Reclaiming, reclaim: moved.0, ..self };
        if moved.1.request is Done {
            on.ends(
                match moved.0.outcome {
                    Some(Ok(())) => Ok(ServerStatus::Stopped),
                    Some(Err(failure)) => Err(failure),
                    None => Err(FailureView::OutOfTurn),
                },
            )
        } else {
            (on, moved.1)
        }
    }

    /// The stop's next state and move on `reply`: the process, if one was
    /// held, is terminated first; only then is the port dealt with; and only
    /// when that has ended is there an outcome.
    pub open spec fn next(self, reply: ReplyView) -> (StopPlanView, TurnView) {
        let out_of_turn = self.ends(Err(FailureView::OutOfTurn));
        match self.phase {
            StopPhase::Start => match reply {
                ReplyView::Start => if self.held {
                    (
                        StopPlanView { phase: StopPhase::Terminating, ..self },
                        TurnView::quiet(RequestView::Terminate),
                    )
                } else {
                    self.reclaims(ReplyView::Start)
                },
                _ => out_of_turn,
            },
            StopPhase::Terminating => match reply {
                ReplyView::Terminated(Ok(())) => self.reclaims(ReplyView::Start),
                ReplyView::Terminated(Err(detail)) => self.ends(
                    Err(FailureView::Io { context: "Failed to stop server"@, detail }),
                ),
                _ => out_of_turn,
            },
            StopPhase::Reclaiming => self.reclaims(reply),
            StopPhase::Done => (self, TurnView::quiet(RequestView::Done)),
        }
    }
}

/// The plan that stops the server: terminate the process, then make sure
/// that the port is free.
pub struct StopPlan {
    held: bool,
    phase: StopPhase,
    reclaim: ReclaimPlan,
    outcome: Option<Result<ServerStatus, Failure>>,
}

pub open spec fn stop_outcome_view(outcome: Option<Result<ServerStatus, Failure>>) -> Option<
    Result<ServerStatus, FailureView>,
> {
    match outcome {
        Some(Ok(status)) => Some(Ok(status)),
        Some(Err(failure)) => Some(Err(failure@)),
        None => None,
    }
}

impl View for StopPlan {
    type V = StopPlanView;

    closed spec fn view(&self) -> StopPlanView {
        StopPlanView {
            held: self.held,
            phase: self.phase,
            reclaim: self.reclaim@,
            outcome: stop_outcome_view(self.outcome),
        }
    }
}

impl StopPlan {
    fn ends(&mut self, outcome: Result<ServerStatus, Failure>) -> (made: Turn)
        ensures
            (final(self)@, made@) == old(self)@.ends(
                match outcome {
                    Ok(status) => Ok(status),
                    Err(failure) => Err(failure@),
                },
            ),
    {
        self.phase = StopPhase::Done;
        self.outcome = Some(outcome);
        Turn::quiet(Request::Done)
    }

    fn reclaims(&mut self, reply: Reply) -> (made: Turn)
        ensures
            (final(self)@, made@) == old(self)@.reclaims(reply@),
    {
        let turn = self.reclaim.next(reply);
        self.phase = StopPhase::Reclaiming;
        match &turn.request {
            Request::Done => {
                let outcome = match self.reclaim.outcome() {
                    Some(Ok(())) => Ok(ServerStatus::Stopped),
                    Some(Err(failure)) => Err(failure),
                    None => Err(Failure::OutOfTurn),
                };
                self.ends(outcome)
            },
            _ => turn,
        }
    }

    /// Takes the driver's reply and makes the plan's next move.
    pub fn next(&mut self, reply: Reply) -> (turn: Turn)
        ensures
            (final(self)@, turn@) == old(self)@.next(reply@),
    {
        match self.phase {
            StopPhase::Start => match reply {
                Reply::Start => {
                    if self.held {
                        self.phase = StopPhase::Terminating;
                        Turn::quiet(Request::Terminate)
                    } else {
                        self.reclaims(Reply::Start)
                    }
                },
                _ => self.ends(Err(Failure::OutOfTurn)),
            },
            StopPhase::Terminating => match reply {
                Reply::Terminated(Ok(())) => self.reclaims(Reply::Start),
                Reply::Terminated(Err(detail)) => self.ends(
                    Err(Failure::Io { context: String::from_str("Failed to stop server"), detail }),
                ),
                _ => self.ends(Err(Failure::OutOfTurn)),
            },
            StopPhase::Reclaiming => self.reclaims(reply),
            StopPhase::Done => Turn::quiet(Request::Done),
        }
    }

    /// Where the plan stands.
    pub fn phase(&self) -> (phase: StopPhase)
        ensures
            phase == self@.phase,
    {
        self.phase
    }

    /// Gives up the plan for its outcome: `None` while it has none.
    pub fn into_outcome(self) -> (outcome: Option<Result<ServerStatus, Failure>>)
        ensures
            stop_outcome_view(outcome) == self@.outcome,
    {
        self.outcome
    }
}

/// Begins a stop: takes the handle out of the supervisor, so that the
/// process can be terminated, withdraws the promise of a start that is
/// under way, and plans the rest. The handle is `None` where none is held;
/// the port is dealt with all the same.
pub fn stop_index_tts_server<H>(state: &mut ServerChildProcess<H>, platform: Platform) -> (begun: (
    Option<H>,
    StopPlan,
))
    ensures
        (final(state)@, begun.0) == spec_stop(old(state)@),
        begun.1@ == StopPlanView::start(old(state)@ is Running, platform),
{
    let mut held = Supervision::Stopped;
    core::mem::swap(&mut held, &mut state.held);
    let handle = match held {
        Supervision::Running(handle) => Some(handle),
        _ => None,
    };
    let plan = StopPlan {
        held: handle.is_some(),
        phase: StopPhase::Start,
        reclaim: ensure_port_closed(SERVER_PORT, platform),
        outcome: None,
    };
    (handle, plan)
}

/// Puts back the handle of a process that could not be terminated, so that
/// the stop can be tried again. A handle that was taken up in the meantime
/// is handed back to the caller.
pub fn stop_failed<H>(state: &mut ServerChildProcess<H>, handle: H) -> (pushed_out: Option<H>)
    ensures
        (final(state)@, pushed_out) == spec_restore(old(state)@, handle),
{
    let mut held = Supervision::Running(handle);
    core::mem::swap(&mut held, &mut state.held);
    match held {
        Supervision::Running(other) => Some(other),
        _ => None,
    }
}

/// The forwarder for one output stream of the server: lines carry no step
/// and are not retained.
pub fn server_forwarder(stream: StreamSource) -> (forwarder: StreamForwarder)
    ensures
        forwarder@ == ForwarderView::start(None, stream, false),
{
    StreamForwarder::new(None, stream, false)
}

/// The name of the event that carries a line of the server's output.
pub fn server_log_event(stream: StreamSource) -> (name: &'static str)
    ensures
        name@ == (match stream {
            StreamSource::Stdout => "server-log-stdout"@,
            StreamSource::Stderr => "server-log-stderr"@,
        }),
{
    match stream {
        StreamSource::Stdout => "server-log-stdout",
        StreamSource::Stderr => "server-log-stderr",
    }
}

/// A start that follows a completed start, with no stop between them, is
/// refused as already running, whatever it asks for, and the handle of the
/// first process stays held untouched.
pub proof fn lemma_second_start_is_refused<H>(
    first: ServerLaunchView,
    handle: H,
    second: ServerLaunchView,
    dir_exists: bool,
    entry_exists: bool,
)
    ensures
        ({
            let accepted = spec_start(Supervision::<H>::Stopped, first, true, true);
            let running = spec_started(accepted.0, Ok(handle));
            let again = spec_start(running.0, second, dir_exists, entry_exists);
            &&& accepted.1 == Ok::<CommandSpecView, FailureView>(first.command())
            &&& running.0 == Supervision::Running(handle)
            &&& again.1 == Err::<CommandSpecView, FailureView>(FailureView::AlreadyRunning)
            &&& again.0 == Supervision::Running(handle)
        }),
{
}

/// A status query on a held handle reports running while the poll finds the
/// process alive, and keeps the handle. Once a poll finds that the process
/// has exited, the query reports stopped and the handle is gone; every query
/// after that reports stopped again, whatever it is handed.
pub proof fn lemma_status_settles<H>(
    handle: H,
    later: Option<Result<bool, Seq<char>>>,
)
    ensures
        spec_status(Supervision::Running(handle), Some(Ok(false))) == (
            Supervision::Running(handle),
            Ok::<ServerStatus, FailureView>(ServerStatus::Running),
        ),
        spec_status(Supervision::Running(handle), Some(Ok(true))) == (
            Supervision::<H>::Stopped,
            Ok::<ServerStatus, FailureView>(ServerStatus::Stopped),
        ),
        spec_status(Supervision::<H>::Stopped, later) == (
            Supervision::<H>::Stopped,
            Ok::<ServerStatus, FailureView>(ServerStatus::Stopped),
        ),
{
}

/// A status query that succeeds answers running or stopped, never
/// starting, and answers running exactly when a handle is held afterwards;
/// one that fails leaves the handle held. Where no handle is held, the
/// answer is stopped and nothing changes, also while a start is under way.
pub proof fn lemma_status_tells_what_is_held<H>(
    held: Supervision<H>,
    poll: Option<Result<bool, Seq<char>>>,
)
    ensures
        spec_status(held, poll).1 matches Ok(status) ==> status != ServerStatus::Starting && (status
            == ServerStatus::Running <==> spec_status(held, poll).0 is Running),
        spec_status(held, poll).1 is Err ==> spec_status(held, poll).0 == held && held is Running,
        !(held is Running) ==> spec_status(held, poll) == (
            held,
            Ok::<ServerStatus, FailureView>(ServerStatus::Stopped),
        ),
{
}

/// After a stop nothing is held or under way. A stop that comes while a
/// start is under way withdraws the promise: the result of spawning that
/// arrives later is out of turn, changes nothing, and a handle that it
/// brings is handed back.
pub proof fn lemma_stop_withdraws_the_promise<H>(held: Supervision<H>, handle: H)
    ensures
        spec_stop(held).0 == Supervision::<H>::Stopped,
        spec_stop(Supervision::<H>::Starting) == (Supervision::<H>::Stopped, None::<H>),
        spec_started(spec_stop(Supervision::<H>::Starting).0, Ok(handle)) == (
            Supervision::<H>::Stopped,
            Err::<ServerStatus, FailureView>(FailureView::OutOfTurn),
            Some(handle),
        ),
{
}

/// A held handle leaves the supervisor in two ways only: a stop takes it
/// out, and a status query drops it when a poll has seen the process exit.
/// Whatever else is asked, it stays held as it is.
pub proof fn lemma_handle_is_kept<H>(
    handle: H,
    launch: ServerLaunchView,
    dir_exists: bool,
    entry_exists: bool,
    spawned: Result<H, FailureView>,
    poll: Option<Result<bool, Seq<char>>>,
)
    ensures
        spec_start(Supervision::Running(handle), launch, dir_exists, entry_exists).0
            == Supervision::Running(handle),
        spec_started(Supervision::Running(handle), spawned).0 == Supervision::Running(handle),
        poll != Some(Ok::<bool, Seq<char>>(true)) ==> spec_status(
            Supervision::Running(handle),
            poll,
        ).0 == Supervision::Running(handle),
        spec_stop(Supervision::Running(handle)).1 == Some(handle),
{
}

/// The supervisor never reports running without having passed through
/// starting: from stopped, a request to start leads to starting or leaves
/// it stopped, and only the result of spawning leads on to running.
pub proof fn lemma_running_comes_after_starting<H>(
    held: Supervision<H>,
    launch: ServerLaunchView,
    dir_exists: bool,
    entry_exists: bool,
    spawned: Result<H, FailureView>,
    poll: Option<Result<bool, Seq<char>>>,
)
    requires
        !(held is Running),
    ensures
        !(spec_start(held, launch, dir_exists, entry_exists).0 is Running),
        spec_started(held, spawned).0 is Running ==> held is Starting,
        !(spec_status(held, poll).0 is Running),
        !(spec_stop(held).0 is Running),
{
}

/// A stop hands out exactly the handle that was held and leaves nothing
/// held. Where the process cannot be terminated and the handle is put
/// back, nothing is pushed out and the next stop hands out the same handle
/// again.
pub proof fn lemma_stop_can_be_retried<H>(handle: H)
    ensures
        ({
            let stopped = spec_stop(Supervision::Running(handle));
            let restored = spec_restore(stopped.0, handle);
            &&& stopped == (Supervision::<H>::Stopped, Some(handle))
            &&& restored == (Supervision::Running(handle), None::<H>)
            &&& spec_stop(restored.0) == stopped
        }),
{
}

/// Every move keeps a stop well formed, and a stop that is done stays as
/// it is.
pub proof fn lemma_stop_step(plan: StopPlanView, reply: ReplyView)
    requires
        plan.wf(),
    ensures
        plan.next(reply).0.wf(),
        plan.next(reply).0.held == plan.held,
        plan.phase == StopPhase::Done ==> plan.next(reply) == (
            plan,
            TurnView::quiet(RequestView::Done),
        ),
{
    lemma_reclaim_step(plan.reclaim, reply);
    lemma_reclaim_step(plan.reclaim, ReplyView::Start);
}

/// A stop reports stopped only on a probe that found the port free: the
/// move that gives this outcome is the answer to a probe of the port, and
/// the answer is that nothing is listening. Where a process was held, that
/// probe comes after its termination.
pub proof fn lemma_stopped_means_port_free(plan: StopPlanView, reply: ReplyView)
    requires
        plan.wf(),
        plan.phase != StopPhase::Done,
        plan.next(reply).0.outcome == Some(Ok::<ServerStatus, FailureView>(ServerStatus::Stopped)),
    ensures
        plan.phase == StopPhase::Reclaiming,
        plan.reclaim.phase == ReclaimPhase::Probing,
        reply == ReplyView::Reachable(false),
{
    lemma_reclaim_step(plan.reclaim, reply);
    lemma_reclaim_step(plan.reclaim, ReplyView::Start);
}

/// A stop that holds a process asks for nothing before its termination,
/// and deals with the port only once the process is gone; where the
/// process cannot be terminated, the stop fails and the port is left alone.
pub proof fn lemma_termination_comes_first(platform: Platform, detail: Seq<char>)
    ensures
        ({
            let begun = StopPlanView::start(true, platform).next(ReplyView::Start);
            let gone = begun.0.next(ReplyView::Terminated(Ok(())));
            let stuck = begun.0.next(ReplyView::Terminated(Err(detail)));
            &&& begun.1 == TurnView::quiet(RequestView::Terminate)
            &&& gone.1.request is ProbePort
            &&& stuck.1 == TurnView::quiet(RequestView::Done)
            &&& stuck.0.outcome == Some(
                Err::<ServerStatus, FailureView>(
                    FailureView::Io { context: "Failed to stop server"@, detail },
                ),
            )
        }),
{
}

} // verus!
