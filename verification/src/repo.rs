//! Questions about a working copy that is already in place: whether it is
//! one, whether the remote has moved on, and how to catch up with it.

use vstd::prelude::*;
use vstd::string::StringExecFns;
use crate::capture::{CapturePlan, CapturePlanView, CaptureTask, CaptureTaskView, Guard, GuardView};
use crate::command::{
    capture_verdict,
    spec_capture_verdict,
    CommandOutputView,
    CommandSpec,
    CommandSpecView,
};
use crate::failure::{Failure, FailureView};
use crate::plan::{
    child_probe,
    dir_probe,
    spec_child_probe,
    spec_dir_probe,
    PathProbe,
    Reply,
    ReplyView,
    Request,
    RequestView,
    Turn,
    TurnView,
};
use crate::text::{decode_lossy, lossy_text, trim, trimmed};

verus! {

pub open spec fn missing_repo_message() -> Seq<char> {
    "Repository directory does not exist."@
}

/// `git -C <dir>`, to which the subcommand is added.
pub open spec fn spec_git_at(dir: Seq<char>) -> CommandSpecView {
    CommandSpecView::new("git"@).arg("-C"@).arg(dir)
}

fn git_at(dir: &str) -> (command: CommandSpec)
    ensures
        command@ == spec_git_at(dir@),
{
    CommandSpec::new("git").arg("-C").arg(dir)
}

/// The task that pulls the remote's changes into the working copy.
pub open spec fn spec_pull_task(target_dir: Seq<char>) -> CaptureTaskView {
    CaptureTaskView {
        guard: Some(
            GuardView { probe: spec_dir_probe(target_dir), refusal: missing_repo_message() },
        ),
        command: spec_git_at(target_dir).arg("pull"@),
        spawn_context: "Failed to execute git pull"@,
        failure_context: "Git pull failed"@,
        success: "SUCCESS"@,
    }
}

/// Plans a pull in the working copy at `target_dir`.
pub fn pull_repo(target_dir: &str) -> (plan: CapturePlan)
    ensures
        plan@ == CapturePlanView::start(spec_pull_task(target_dir@)),
{
    CapturePlan::new(
        CaptureTask {
            guard: Some(
                Guard {
                    probe: dir_probe(target_dir),
                    refusal: String::from_str("Repository directory does not exist."),
                },
            ),
            command: git_at(target_dir).arg("pull"),
            spawn_context: String::from_str("Failed to execute git pull"),
            failure_context: String::from_str("Git pull failed"),
            success: String::from_str("SUCCESS"),
        },
    )
}

/// Where a check of a working copy stands.
#[derive(Clone, Copy, Debug, PartialEq, Eq, Structural)]
pub enum RepoCheckPhase {
    Start,
    Probing,
    Done,
}

/// A check of a working copy as a value.
pub struct RepoCheckView {
    pub repo_dir: Option<Seq<char>>,
    pub phase: RepoCheckPhase,
    pub outcome: Option<Result<bool, FailureView>>,
}

impl RepoCheckView {
    pub open spec fn start(repo_dir: Option<Seq<char>>) -> RepoCheckView {
        RepoCheckView { repo_dir, phase: RepoCheckPhase::Start, outcome: None }
    }

    /// The path to look at: what was given, trimmed, unless nothing or only
    /// white space was given.
    pub open spec fn path(self) -> Option<Seq<char>> {
        match self.repo_dir {
            Some(given) => if trimmed(given).len() > 0 {
                Some(trimmed(given))
            } else {
                None
            },
            None => None,
        }
    }

    pub open spec fn ends(self, outcome: Result<bool, FailureView>) -> (RepoCheckView, TurnView) {
        (
            RepoCheckView { phase: RepoCheckPhase::Done, outcome: Some(outcome), ..self },
            TurnView::quiet(RequestView::Done),
        )
    }

    /// The check's next state and move on `reply`: without a path the
    /// answer is no; with one, it is a working copy exactly when it is a
    /// directory that holds the directory of the version control.
    pub open spec fn next(self, reply: ReplyView) -> (RepoCheckView, TurnView) {
        let out_of_turn = self.ends(Err(FailureView::OutOfTurn));
        match self.phase {
            RepoCheckPhase::Start => match reply {
                ReplyView::Start => match self.path() {
                    Some(path) => (
                        RepoCheckView { phase: RepoCheckPhase::Probing, ..self },
                        TurnView::quiet(
                            RequestView::Probe(
                                seq![spec_dir_probe(path), spec_child_probe(path, ".git"@, true)],
                            ),
                        ),
                    ),
                    None => self.ends(Ok(false)),
                },
                _ => out_of_turn,
            },
            RepoCheckPhase::Probing => match reply {
                ReplyView::Probed(flags) => if flags.len() != 2 {
                    out_of_turn
                } else {
                    self.ends(Ok(flags[0] && flags[1]))
                },
                _ => out_of_turn,
            },
            RepoCheckPhase::Done => (self, TurnView::quiet(RequestView::Done)),
        }
    }
}

pub open spec fn check_outcome_view(outcome: Option<Result<bool, Failure>>) -> Option<
    Result<bool, FailureView>,
> {
    match outcome {
        Some(Ok(found)) => Some(Ok(found)),
        Some(Err(failure)) => Some(Err(failure@)),
        None => None,
    }
}

/// The plan that says whether a directory is a working copy.
pub struct RepoCheck {
    repo_dir: Option<String>,
    phase: RepoCheckPhase,
    outcome: Option<Result<bool, Failure>>,
}

impl View for RepoCheck {
    type V = RepoCheckView;

    closed spec fn view(&self) -> RepoCheckView {
        RepoCheckView {
            repo_dir: match self.repo_dir {
                Some(dir) => Some(dir@),
                None => None,
            },
            phase: self.phase,
            outcome: check_outcome_view(self.outcome),
        }
    }
}

/// Plans the check whether `repo_dir` is a working copy.
pub fn check_index_tts_repo(repo_dir: Option<String>) -> (plan: RepoCheck)
    ensures
        plan@ == RepoCheckView::start(
            match repo_dir {
                Some(dir) => Some(dir@),
                None => None,
            },
        ),
{
    RepoCheck { repo_dir, phase: RepoCheckPhase::Start, outcome: None }
}

impl RepoCheck {
    fn ends(&mut self, outcome: Result<bool, Failure>) -> (made: Turn)
        ensures
            (final(self)@, made@) == old(self)@.ends(
                match outcome {
                    Ok(found) => Ok(found),
                    Err(failure) => Err(failure@),
                },
            ),
    {
        self.phase = RepoCheckPhase::Done;
        self.outcome = Some(outcome);
        Turn::quiet(Request::Done)
    }

    /// Takes the driver's reply and makes the plan's next move.
    pub fn next(&mut self, reply: Reply) -> (turn: Turn)
        ensures
            (final(self)@, turn@) == old(self)@.next(reply@),
    {
        match self.phase {
            RepoCheckPhase::Start => match reply {
                Reply::Start => {
                    let path = match &self.repo_dir {
                        Some(given) => {
                            let path = trim(given.as_str());
                            if path.as_str().is_empty() {
                                None
                            } else {
                                Some(path)
                            }
                        },
                        None => None,
                    };
                    match path {
                        Some(path) => {
                            let mut probes: Vec<PathProbe> = Vec::new();
                            probes.push(dir_probe(path.as_str()));
                            probes.push(child_probe(path.as_str(), ".git", true));
                            let request = Request::Probe(probes);
                            assert(request@->Probe_0 =~= seq![
                                spec_dir_probe(path@),
                                spec_child_probe(path@, ".git"@, true),
                            ]);
                            self.phase = RepoCheckPhase::Probing;
                            Turn::quiet(request)
                        },
                        None => self.ends(Ok(false)),
                    }
                },
                _ => self.ends(Err(Failure::OutOfTurn)),
            },
            RepoCheckPhase::Probing => match reply {
                Reply::Probed(flags) => {
                    if flags.len() != 2 {
                        self.ends(Err(Failure::OutOfTurn))
                    } else {
                        self.ends(Ok(flags[0] && flags[1]))
                    }
                },
                _ => self.ends(Err(Failure::OutOfTurn)),
            },
            RepoCheckPhase::Done => Turn::quiet(Request::Done),
        }
    }

    /// Gives up the plan for its outcome: `None` while it has none.
    pub fn into_outcome(self) -> (outcome: Option<Result<bool, Failure>>)
        ensures
            check_outcome_view(outcome) == self@.outcome,
    {
        self.outcome
    }
}

/// What a comparison of the local and the remote head found.
#[derive(Clone, Debug, PartialEq, Eq)]
pub struct RepoUpdateInfo {
    pub has_update: bool,
    pub local_hash: String,
    pub remote_hash: String,
    pub message: String,
}

pub struct RepoUpdateInfoView {
    pub has_update: bool,
    pub local_hash: Seq<char>,
    pub remote_hash: Seq<char>,
    pub message: Seq<char>,
}

impl View for RepoUpdateInfo {
    type V = RepoUpdateInfoView;

    open spec fn view(&self) -> RepoUpdateInfoView {
        RepoUpdateInfoView {
            has_update: self.has_update,
            local_hash: self.local_hash@,
            remote_hash: self.remote_hash@,
            message: self.message@,
        }
    }
}

/// What two hashes amount to: an update is there exactly when they differ.
pub open spec fn spec_compare_hashes(local: Seq<char>, remote: Seq<char>) -> RepoUpdateInfoView {
    RepoUpdateInfoView {
        has_update: local != remote,
        local_hash: local,
        remote_hash: remote,
        message: if local != remote {
            "New version available."@
        } else {
            "Already up to date."@
        },
    }
}

/// Compares the hash of the local head with that of the remote head.
pub fn compare_hashes(local_hash: String, remote_hash: String) -> (info: RepoUpdateInfo)
    ensures
        info@ == spec_compare_hashes(local_hash@, remote_hash@),
{
    let has_update = !(local_hash == remote_hash);
    let message = if has_update {
        String::from_str("New version available.")
    } else {
        String::from_str("Already up to date.")
    };
    RepoUpdateInfo { has_update, local_hash, remote_hash, message }
}

/// Where an update check stands.
#[derive(Clone, Copy, Debug, PartialEq, Eq, Structural)]
pub enum UpdatePhase {
    Start,
    Probing,
    Fetching,
    ReadingLocal,
    ReadingRemote,
    Done,
}

pub open spec fn spec_fetch(dir: Seq<char>) -> CommandSpecView {
    spec_git_at(dir).arg("fetch"@)
}

pub open spec fn spec_local_head(dir: Seq<char>) -> CommandSpecView {
    spec_git_at(dir).arg("log"@).arg("-n"@).arg("1"@).arg("--pretty=format:%H"@)
}

pub open spec fn spec_remote_head(dir: Seq<char>) -> CommandSpecView {
    spec_local_head(dir).arg("origin/main"@)
}

/// The hash that a command printed: its output, decoded and trimmed.
pub open spec fn printed_hash(output: CommandOutputView) -> Seq<char> {
    trimmed(lossy_text(output.stdout))
}

/// An update check as a value.
pub struct UpdateCheckView {
    pub target_dir: Seq<char>,
    pub phase: UpdatePhase,
    /// The local hash, once it has been read.
    pub local_hash: Seq<char>,
    pub outcome: Option<Result<RepoUpdateInfoView, FailureView>>,
}

impl UpdateCheckView {
    pub open spec fn start(target_dir: Seq<char>) -> UpdateCheckView {
        UpdateCheckView {
            target_dir,
            phase: UpdatePhase::Start,
            local_hash: Seq::empty(),
            outcome: None,
        }
    }

    pub open spec fn goes(self, phase: UpdatePhase, request: RequestView) -> (
        UpdateCheckView,
        TurnView,
    ) {
        (UpdateCheckView { phase, ..self }, TurnView::quiet(request))
    }

    pub open spec fn ends(self, outcome: Result<RepoUpdateInfoView, FailureView>) -> (
        UpdateCheckView,
        TurnView,
    ) {
        (
            UpdateCheckView { phase: UpdatePhase::Done, outcome: Some(outcome), ..self },
            TurnView::quiet(RequestView::Done),
        )
    }

    /// The check's next state and move on `reply`: the directory must be
    /// there; then the remote is fetched, the local head is read, the remote
    /// head is read, and the two are compared. The first command that
    /// cannot be run or reports failure ends the check.
    pub open spec fn next(self, reply: ReplyView) -> (UpdateCheckView, TurnView) {
        let dir = self.target_dir;
        let out_of_turn = self.ends(Err(FailureView::OutOfTurn));
        match self.phase {
            UpdatePhase::Start => match reply {
                ReplyView::Start => self.goes(
                    UpdatePhase::Probing,
                    RequestView::Probe(seq![spec_dir_probe(dir)]),
                ),
                _ => out_of_turn,
            },
            UpdatePhase::Probing => match reply {
                ReplyView::Probed(flags) => if flags.len() != 1 {
                    out_of_turn
                } else if flags[0] {
                    self.goes(UpdatePhase::Fetching, RequestView::Capture(spec_fetch(dir)))
                } else {
                    self.ends(Err(FailureView::Rejected { message: missing_repo_message() }))
                },
                _ => out_of_turn,
            },
            UpdatePhase::Fetching => match reply {
                ReplyView::Captured(ran) => match spec_capture_verdict(
                    ran,
                    "Failed to execute git fetch"@,
                    "Git fetch failed"@,
                ) {
                    Ok(_) => self.goes(
                        UpdatePhase::ReadingLocal,
                        RequestView::Capture(spec_local_head(dir)),
                    ),
                    Err(failure) => self.ends(Err(failure)),
                },
                _ => out_of_turn,
            },
            UpdatePhase::ReadingLocal => match reply {
                ReplyView::Captured(ran) => match spec_capture_verdict(
                    ran,
                    "Failed to get local hash"@,
                    "Failed to get local hash"@,
                ) {
                    Ok(output) => (UpdateCheckView {
                        local_hash: printed_hash(output),
                        ..self
                    }).goes(UpdatePhase::ReadingRemote, RequestView::Capture(spec_remote_head(dir))),
                    Err(failure) => self.ends(Err(failure)),
                },
                _ => out_of_turn,
            },
            UpdatePhase::ReadingRemote => match reply {
                ReplyView::Captured(ran) => match spec_capture_verdict(
                    ran,
                    "Failed to get remote hash"@,
                    "Failed to get remote hash"@,
                ) {
                    Ok(output) => self.ends(
                        Ok(spec_compare_hashes(self.local_hash, printed_hash(output))),
                    ),
                    Err(failure) => self.ends(Err(failure)),
                },
                _ => out_of_turn,
            },
            UpdatePhase::Done => (self, TurnView::quiet(RequestView::Done)),
        }
    }
}

pub open spec fn update_outcome_view(outcome: Option<Result<RepoUpdateInfo, Failure>>) -> Option<
    Result<RepoUpdateInfoView, FailureView>,
> {
    match outcome {
        Some(Ok(info)) => Some(Ok(info@)),
        Some(Err(failure)) => Some(Err(failure@)),
        None => None,
    }
}

/// The plan that finds out whether the remote has moved on.
pub struct UpdateCheck {
    target_dir: String,
    phase: UpdatePhase,
    local_hash: String,
    outcome: Option<Result<RepoUpdateInfo, Failure>>,
}

impl View for UpdateCheck {
    type V = UpdateCheckView;

    closed spec fn view(&self) -> UpdateCheckView {
        UpdateCheckView {
            target_dir: self.target_dir@,
            phase: self.phase,
            local_hash: self.local_hash@,
            outcome: update_outcome_view(self.outcome),
        }
    }
}

/// Plans the check whether the working copy at `target_dir` is behind its
/// remote.
pub fn check_repo_update(target_dir: String) -> (plan: UpdateCheck)
    ensures
        plan@ == UpdateCheckView::start(target_dir@),
{
    UpdateCheck { target_dir, phase: UpdatePhase::Start, local_hash: String::new(), outcome: None }
}

impl UpdateCheck {
    fn ends(&mut self, outcome: Result<RepoUpdateInfo, Failure>) -> (made: Turn)
        ensures
            (final(self)@, made@) == old(self)@.ends(
                match outcome {
                    Ok(info) => Ok(info@),
                    Err(failure) => Err(failure@),
                },
            ),
    {
        self.phase = UpdatePhase::Done;
        self.outcome = Some(outcome);
        Turn::quiet(Request::Done)
    }

    fn goes(&mut self, phase: UpdatePhase, request: Request) -> (made: Turn)
        ensures
            (final(self)@, made@) == old(self)@.goes(phase, request@),
    {
        self.phase = phase;
        Turn::quiet(request)
    }

    fn local_head(&self) -> (command: CommandSpec)
        ensures
            command@ == spec_local_head(self@.target_dir),
    {
        git_at(self.target_dir.as_str()).arg("log").arg("-n").arg("1").arg("--pretty=format:%H")
    }

    /// Takes the driver's reply and makes the plan's next move.
    pub fn next(&mut self, reply: Reply) -> (turn: Turn)
        ensures
            (final(self)@, turn@) == old(self)@.next(reply@),
    {
        match self.phase {
            UpdatePhase::Start => match reply {
                Reply::Start => {
                    let mut probes: Vec<PathProbe> = Vec::new();
                    probes.push(dir_probe(self.target_dir.as_str()));
                    let request = Request::Probe(probes);
                    assert(request@->Probe_0 =~= seq![spec_dir_probe(self.target_dir@)]);
                    self.goes(UpdatePhase::Probing, request)
                },
                _ => self.ends(Err(Failure::OutOfTurn)),
            },
            UpdatePhase::Probing => match reply {
                Reply::Probed(flags) => {
                    if flags.len() != 1 {
                        self.ends(Err(Failure::OutOfTurn))
                    } else if flags[0] {
                        let command = git_at(self.target_dir.as_str()).arg("fetch");
                        self.goes(UpdatePhase::Fetching, Request::Capture(command))
                    } else {
                        self.ends(
                            Err(
                                Failure::Rejected {
                                    message: String::from_str(
                                        "Repository directory does not exist.",
                                    ),
                                },
                            ),
                        )
                    }
                },
                _ => self.ends(Err(Failure::OutOfTurn)),
            },
            UpdatePhase::Fetching => match reply {
                Reply::Captured(ran) => match capture_verdict(
                    ran,
                    "Failed to execute git fetch",
                    "Git fetch failed",
                ) {
                    Ok(_) => {
                        let command = self.local_head();
                        self.goes(UpdatePhase::ReadingLocal, Request::Capture(command))
                    },
                    Err(failure) => self.ends(Err(failure)),
                },
                _ => self.ends(Err(Failure::OutOfTurn)),
            },
            UpdatePhase::ReadingLocal => match reply {
                Reply::Captured(ran) => match capture_verdict(
                    ran,
                    "Failed to get local hash",
                    "Failed to get local hash",
                ) {
                    Ok(output) => {
                        let command = self.local_head().arg("origin/main");
                        let printed = decode_lossy(output.stdout.as_slice());
                        self.local_hash = trim(printed.as_str());
                        self.goes(UpdatePhase::ReadingRemote, Request::Capture(command))
                    },
                    Err(failure) => self.ends(Err(failure)),
                },
                _ => self.ends(Err(Failure::OutOfTurn)),
            },
            UpdatePhase::ReadingRemote => match reply {
                Reply::Captured(ran) => match capture_verdict(
                    ran,
                    "Failed to get remote hash",
                    "Failed to get remote hash",
                ) {
                    Ok(output) => {
                        let printed = decode_lossy(output.stdout.as_slice());
                        let remote = trim(printed.as_str());
                        let info = compare_hashes(self.local_hash.clone(), remote);
                        self.ends(Ok(info))
                    },
                    Err(failure) => self.ends(Err(failure)),
                },
                _ => self.ends(Err(Failure::OutOfTurn)),
            },
            UpdatePhase::Done => Turn::quiet(Request::Done),
        }
    }

    /// Gives up the plan for its outcome: `None` while it has none.
    pub fn into_outcome(self) -> (outcome: Option<Result<RepoUpdateInfo, Failure>>)
        ensures
            update_outcome_view(outcome) == self@.outcome,
    {
        self.outcome
    }
}

} // verus!
