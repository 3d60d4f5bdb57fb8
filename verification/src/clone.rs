//! Getting the repository into place: clone it where nothing is there, accept
//! a complete working copy, repair an incomplete one once, and refuse a
//! directory that holds something else.

use vstd::prelude::*;
use vstd::string::StringExecFns;
use crate::command::{new_command, CommandSpec, CommandSpecView, Platform};
use crate::failure::{Failure, FailureView};
use crate::plan::{
    outcome_view,
    success_text,
    child_probe,
    dir_probe,
    lemma_state_after_next,
    spec_child_probe,
    spec_dir_probe,
    state_after,
    turn_at,
    PathProbe,
    Reply,
    ReplyView,
    Request,
    RequestView,
    Turn,
    TurnView,
};
use crate::stream::{StreamLine, StreamLineView, StreamSource};

verus! {

/// Whether a working copy holds both files that mark a complete checkout.
pub open spec fn spec_repo_has_core_files(pyproject_present: bool, webui_present: bool) -> bool {
    pyproject_present && webui_present
}

/// Whether a working copy holds both files that mark a complete checkout,
/// given whether each of them was found.
pub fn repo_has_core_files(pyproject_present: bool, webui_present: bool) -> (complete: bool)
    ensures
        complete == spec_repo_has_core_files(pyproject_present, webui_present),
{
    pyproject_present && webui_present
}

/// What to do with a target directory that exists, is no working copy and
/// holds nothing.
#[derive(Clone, Copy, Debug, PartialEq, Eq, Structural)]
pub enum EmptyDirPolicy {
    /// Remove it, then clone.
    Remove,
    /// Leave it in place and clone into it.
    Keep,
}

/// Where a clone plan stands.
#[derive(Clone, Copy, Debug, PartialEq, Eq, Structural)]
pub enum ClonePhase {
    Start,
    ProbingTarget,
    CheckingWorkTree,
    CheckingCoreFiles,
    RepairReset,
    RepairClean,
    RecheckingCoreFiles,
    InspectingEmpty,
    Removing,
    Cloning,
    Done,
}

pub open spec fn clone_step() -> Seq<char> {
    "clone_repo"@
}

pub open spec fn repair_reset_step() -> Seq<char> {
    "repair_repo_reset"@
}

pub open spec fn repair_clean_step() -> Seq<char> {
    "repair_repo_clean"@
}

/// `git -C <dir>`, to which the subcommand is added.
pub open spec fn spec_git_in(dir: Seq<char>, platform: Platform) -> CommandSpecView {
    CommandSpecView::new("git"@).configured(platform).arg("-C"@).arg(dir)
}

pub open spec fn spec_work_tree_check(dir: Seq<char>, platform: Platform) -> CommandSpecView {
    spec_git_in(dir, platform).arg("rev-parse"@).arg("--is-inside-work-tree"@)
}

pub open spec fn spec_repair_reset(dir: Seq<char>, platform: Platform) -> CommandSpecView {
    spec_git_in(dir, platform).arg("reset"@).arg("--hard"@).arg("HEAD"@)
}

pub open spec fn spec_repair_clean(dir: Seq<char>, platform: Platform) -> CommandSpecView {
    spec_git_in(dir, platform).arg("clean"@).arg("-fdx"@)
}

pub open spec fn spec_git_clone(dir: Seq<char>, platform: Platform) -> CommandSpecView {
    CommandSpecView::new("git"@).configured(platform).arg("clone"@).arg(
        "https://github.com/index-tts/index-tts.git"@,
    ).arg(dir)
}

/// The two questions whose answers say whether a working copy is complete.
pub open spec fn spec_core_file_probes(dir: Seq<char>) -> RequestView {
    RequestView::Probe(
        seq![
            spec_child_probe(dir, "pyproject.toml"@, false),
            spec_child_probe(dir, "webui.py"@, false),
        ],
    )
}

pub open spec fn clone_log(stream: StreamSource, text: Seq<char>) -> StreamLineView {
    StreamLineView { step: Some(clone_step()), stream, text }
}

pub open spec fn repair_failed_message(dir: Seq<char>) -> Seq<char> {
    "Existing repository at '"@ + dir
        + "' is missing required files and could not be repaired. Please clean the directory and retry."@
}

pub open spec fn still_incomplete_message(dir: Seq<char>) -> Seq<char> {
    "Repository at '"@ + dir
        + "' is still missing required files after repair. Please remove the folder and deploy again."@
}

pub open spec fn not_empty_message(dir: Seq<char>) -> Seq<char> {
    "Target directory '"@ + dir
        + "' exists, is not a git repository, and contains files. Please choose an empty directory or clean it before retrying."@
}

/// A clone plan as a value: what it was made for, where it stands, and its
/// outcome once it has one.
pub struct ClonePlanView {
    pub target_dir: Seq<char>,
    pub platform: Platform,
    pub policy: EmptyDirPolicy,
    pub phase: ClonePhase,
    pub outcome: Option<Result<Seq<char>, FailureView>>,
}

impl ClonePlanView {
    pub open spec fn start(
        target_dir: Seq<char>,
        platform: Platform,
        policy: EmptyDirPolicy,
    ) -> ClonePlanView {
        ClonePlanView { target_dir, platform, policy, phase: ClonePhase::Start, outcome: None }
    }

    /// The plan moves on to `phase` and makes `turn`.
    pub open spec fn goes(self, phase: ClonePhase, turn: TurnView) -> (ClonePlanView, TurnView) {
        (ClonePlanView { phase, ..self }, turn)
    }

    /// The plan ends with `outcome`, after showing `logs`.
    pub open spec fn ends(
        self,
        logs: Seq<StreamLineView>,
        outcome: Result<Seq<char>, FailureView>,
    ) -> (ClonePlanView, TurnView) {
        (
            ClonePlanView { phase: ClonePhase::Done, outcome: Some(outcome), ..self },
            TurnView { logs, request: RequestView::Done },
        )
    }

    pub open spec fn clones(self) -> (ClonePlanView, TurnView) {
        self.goes(
            ClonePhase::Cloning,
            TurnView::quiet(
                RequestView::Stream {
                    step: clone_step(),
                    command: spec_git_clone(self.target_dir, self.platform),
                },
            ),
        )
    }

    pub open spec fn repair_fails(self, failure: FailureView) -> (ClonePlanView, TurnView) {
        self.ends(
            seq![clone_log(StreamSource::Stderr, "自动恢复失败: "@ + failure.message())],
            Err(FailureView::Rejected { message: repair_failed_message(self.target_dir) }),
        )
    }

    /// The plan's next state and move on `reply`.
    pub open spec fn next(self, reply: ReplyView) -> (ClonePlanView, TurnView) {
        let dir = self.target_dir;
        let out_of_turn = self.ends(Seq::empty(), Err(FailureView::OutOfTurn));
        match self.phase {
            ClonePhase::Start => match reply {
                ReplyView::Start => self.goes(
                    ClonePhase::ProbingTarget,
                    TurnView::quiet(RequestView::Probe(seq![spec_dir_probe(dir)])),
                ),
                _ => out_of_turn,
            },
            ClonePhase::ProbingTarget => match reply {
                ReplyView::Probed(flags) => if flags.len() != 1 {
                    out_of_turn
                } else if flags[0] {
                    self.goes(
                        ClonePhase::CheckingWorkTree,
                        TurnView::quiet(
                            RequestView::Capture(spec_work_tree_check(dir, self.platform)),
                        ),
                    )
                } else {
                    self.clones()
                },
                _ => out_of_turn,
            },
            ClonePhase::CheckingWorkTree => match reply {
                ReplyView::Captured(Ok(output)) => if output.success {
                    self.goes(
                        ClonePhase::CheckingCoreFiles,
                        TurnView::quiet(spec_core_file_probes(dir)),
                    )
                } else {
                    self.goes(
                        ClonePhase::InspectingEmpty,
                        TurnView::quiet(RequestView::InspectEmpty { dir }),
                    )
                },
                ReplyView::Captured(Err(detail)) => self.ends(
                    Seq::empty(),
                    Err(
                        FailureView::Spawn {
                            context: "Failed to check if "@ + dir + " is a git repo"@,
                            detail,
                        },
                    ),
                ),
                _ => out_of_turn,
            },
            ClonePhase::CheckingCoreFiles => match reply {
                ReplyView::Probed(flags) => if flags.len() != 2 {
                    out_of_turn
                } else if spec_repo_has_core_files(flags[0], flags[1]) {
                    self.ends(
                        seq![clone_log(StreamSource::Stdout, "目标目录已存在，跳过克隆。"@)],
                        Ok(success_text()),
                    )
                } else {
                    self.goes(
                        ClonePhase::RepairReset,
                        TurnView::saying(
                            clone_log(
                                StreamSource::Stderr,
                                "检测到现有仓库缺少关键文件，尝试自动恢复..."@,
                            ),
                            RequestView::Stream {
                                step: repair_reset_step(),
                                command: spec_repair_reset(dir, self.platform),
                            },
                        ),
                    )
                },
                _ => out_of_turn,
            },
            ClonePhase::RepairReset => match reply {
                ReplyView::Stepped(Ok(())) => self.goes(
                    ClonePhase::RepairClean,
                    TurnView::quiet(
                        RequestView::Stream {
                            step: repair_clean_step(),
                            command: spec_repair_clean(dir, self.platform),
                        },
                    ),
                ),
                ReplyView::Stepped(Err(failure)) => self.repair_fails(failure),
                _ => out_of_turn,
            },
            ClonePhase::RepairClean => match reply {
                ReplyView::Stepped(Ok(())) => self.goes(
                    ClonePhase::RecheckingCoreFiles,
                    TurnView::quiet(spec_core_file_probes(dir)),
                ),
                ReplyView::Stepped(Err(failure)) => self.repair_fails(failure),
                _ => out_of_turn,
            },
            ClonePhase::RecheckingCoreFiles => match reply {
                ReplyView::Probed(flags) => if flags.len() != 2 {
                    out_of_turn
                } else if spec_repo_has_core_files(flags[0], flags[1]) {
                    self.ends(
                        seq![clone_log(StreamSource::Stdout, "仓库修复完成，跳过重新克隆。"@)],
                        Ok(success_text()),
                    )
                } else {
                    self.ends(
                        Seq::empty(),
                        Err(FailureView::Rejected { message: still_incomplete_message(dir) }),
                    )
                },
                _ => out_of_turn,
            },
            ClonePhase::InspectingEmpty => match reply {
                ReplyView::Emptiness(Ok(true)) => match self.policy {
                    EmptyDirPolicy::Remove => self.goes(
                        ClonePhase::Removing,
                        TurnView::saying(
                            clone_log(
                                StreamSource::Stdout,
                                "检测到一个空目录，自动清理后继续克隆。"@,
                            ),
                            RequestView::RemoveDir { dir },
                        ),
                    ),
                    EmptyDirPolicy::Keep => self.clones(),
                },
                ReplyView::Emptiness(Ok(false)) => self.ends(
                    Seq::empty(),
                    Err(FailureView::Rejected { message: not_empty_message(dir) }),
                ),
                ReplyView::Emptiness(Err(detail)) => self.ends(
                    Seq::empty(),
                    Err(
                        FailureView::Io {
                            context: "Failed to inspect directory '"@ + dir + "'"@,
                            detail,
                        },
                    ),
                ),
                _ => out_of_turn,
            },
            ClonePhase::Removing => match reply {
                ReplyView::Removed(Ok(())) => self.clones(),
                ReplyView::Removed(Err(detail)) => self.ends(
                    Seq::empty(),
                    Err(
                        FailureView::Io {
                            context: "Failed to reset empty target directory '"@ + dir + "'"@,
                            detail,
                        },
                    ),
                ),
                _ => out_of_turn,
            },
            ClonePhase::Cloning => match reply {
                ReplyView::Stepped(Ok(())) => self.ends(Seq::empty(), Ok(success_text())),
                ReplyView::Stepped(Err(failure)) => self.ends(Seq::empty(), Err(failure)),
                _ => out_of_turn,
            },
            ClonePhase::Done => (self, TurnView::quiet(RequestView::Done)),
        }
    }
}

/// `git -C <dir>`, to which the subcommand is added.
fn git_in(dir: &str, platform: Platform) -> (command: CommandSpec)
    ensures
        command@ == spec_git_in(dir@, platform),
{
    new_command("git", platform).arg("-C").arg(dir)
}

fn core_file_probes(dir: &str) -> (request: Request)
    ensures
        request@ == spec_core_file_probes(dir@),
{
    let mut probes: Vec<PathProbe> = Vec::new();
    probes.push(child_probe(dir, "pyproject.toml", false));
    probes.push(child_probe(dir, "webui.py", false));
    let request = Request::Probe(probes);
    assert(request@->Probe_0 =~= spec_core_file_probes(dir@)->Probe_0);
    request
}

/// `head`, then `dir`, then `tail`.
fn around(head: &str, dir: &str, tail: &str) -> (text: String)
    ensures
        text@ == head@ + dir@ + tail@,
{
    let mut text = String::from_str(head);
    text.append(dir);
    text.append(tail);
    text
}

/// The plan that gets the repository into a target directory.
pub struct ClonePlan {
    target_dir: String,
    platform: Platform,
    policy: EmptyDirPolicy,
    phase: ClonePhase,
    outcome: Option<Result<String, Failure>>,
}

impl View for ClonePlan {
    type V = ClonePlanView;

    closed spec fn view(&self) -> ClonePlanView {
        ClonePlanView {
            target_dir: self.target_dir@,
            platform: self.platform,
            policy: self.policy,
            phase: self.phase,
            outcome: outcome_view(self.outcome),
        }
    }
}

/// Plans how to get the repository into `target_dir`.
pub fn clone_index_tts_repo(target_dir: String, platform: Platform, policy: EmptyDirPolicy) -> (plan:
    ClonePlan)
    ensures
        plan@ == ClonePlanView::start(target_dir@, platform, policy),
{
    ClonePlan { target_dir, platform, policy, phase: ClonePhase::Start, outcome: None }
}

impl ClonePlan {
    fn goes(&mut self, phase: ClonePhase, turn: Turn) -> (made: Turn)
        ensures
            (final(self)@, made@) == old(self)@.goes(phase, turn@),
    {
        self.phase = phase;
        turn
    }

    fn ends(&mut self, logs: Vec<StreamLine>, outcome: Result<String, Failure>) -> (made: Turn)
        ensures
            (final(self)@, made@) == old(self)@.ends(
                crate::stream::line_views(logs@),
                match outcome {
                    Ok(text) => Ok(text@),
                    Err(failure) => Err(failure@),
                },
            ),
    {
        self.phase = ClonePhase::Done;
        self.outcome = Some(outcome);
        Turn { logs, request: Request::Done }
    }

    fn ends_quietly(&mut self, outcome: Result<String, Failure>) -> (made: Turn)
        ensures
            (final(self)@, made@) == old(self)@.ends(
                Seq::empty(),
                match outcome {
                    Ok(text) => Ok(text@),
                    Err(failure) => Err(failure@),
                },
            ),
    {
        let logs: Vec<StreamLine> = Vec::new();
        assert(crate::stream::line_views(logs@) =~= Seq::empty());
        self.ends(logs, outcome)
    }

    fn ends_saying(&mut self, line: StreamLine, outcome: Result<String, Failure>) -> (made: Turn)
        ensures
            (final(self)@, made@) == old(self)@.ends(
                seq![line@],
                match outcome {
                    Ok(text) => Ok(text@),
                    Err(failure) => Err(failure@),
                },
            ),
    {
        let mut logs: Vec<StreamLine> = Vec::new();
        logs.push(line);
        assert(crate::stream::line_views(logs@) =~= seq![line@]);
        self.ends(logs, outcome)
    }

    fn out_of_turn(&mut self) -> (made: Turn)
        ensures
            (final(self)@, made@) == old(self)@.ends(Seq::empty(), Err(FailureView::OutOfTurn)),
    {
        self.ends_quietly(Err(Failure::OutOfTurn))
    }

    fn clones(&mut self) -> (made: Turn)
        ensures
            (final(self)@, made@) == old(self)@.clones(),
    {
        let command = new_command("git", self.platform).arg("clone").arg(
            "https://github.com/index-tts/index-tts.git",
        ).arg(self.target_dir.as_str());
        let request = Request::Stream { step: String::from_str("clone_repo"), command };
        self.goes(ClonePhase::Cloning, Turn::quiet(request))
    }

    fn repair_fails(&mut self, failure: Failure) -> (made: Turn)
        ensures
            (final(self)@, made@) == old(self)@.repair_fails(failure@),
    {
        let mut text = String::from_str("自动恢复失败: ");
        text.append(failure.message().as_str());
        let line = StreamLine::tagged("clone_repo", StreamSource::Stderr, text.as_str());
        let message = around(
            "Existing repository at '",
            self.target_dir.as_str(),
            "' is missing required files and could not be repaired. Please clean the directory and retry.",
        );
        self.ends_saying(line, Err(Failure::Rejected { message }))
    }

    /// Takes the driver's reply and makes the plan's next move.
    pub fn next(&mut self, reply: Reply) -> (turn: Turn)
        ensures
            (final(self)@, turn@) == old(self)@.next(reply@),
    {
        match self.phase {
            ClonePhase::Start => match reply {
                Reply::Start => {
                    let mut probes: Vec<PathProbe> = Vec::new();
                    probes.push(dir_probe(self.target_dir.as_str()));
                    let request = Request::Probe(probes);
                    assert(request@->Probe_0 =~= seq![spec_dir_probe(self.target_dir@)]);
                    self.goes(ClonePhase::ProbingTarget, Turn::quiet(request))
                },
                _ => self.out_of_turn(),
            },
            ClonePhase::ProbingTarget => match reply {
                Reply::Probed(flags) => {
                    if flags.len() != 1 {
                        self.out_of_turn()
                    } else if flags[0] {
                        let command = git_in(self.target_dir.as_str(), self.platform).arg(
                            "rev-parse",
                        ).arg("--is-inside-work-tree");
                        self.goes(
                            ClonePhase::CheckingWorkTree,
                            Turn::quiet(Request::Capture(command)),
                        )
                    } else {
                        self.clones()
                    }
                },
                _ => self.out_of_turn(),
            },
            ClonePhase::CheckingWorkTree => match reply {
                Reply::Captured(Ok(output)) => {
                    if output.success {
                        let request = core_file_probes(self.target_dir.as_str());
                        self.goes(ClonePhase::CheckingCoreFiles, Turn::quiet(request))
                    } else {
                        let request = Request::InspectEmpty { dir: self.target_dir.clone() };
                        self.goes(ClonePhase::InspectingEmpty, Turn::quiet(request))
                    }
                },
                Reply::Captured(Err(detail)) => {
                    let context = around(
                        "Failed to check if ",
                        self.target_dir.as_str(),
                        " is a git repo",
                    );
                    self.ends_quietly(Err(Failure::Spawn { context, detail }))
                },
                _ => self.out_of_turn(),
            },
            ClonePhase::CheckingCoreFiles => match reply {
                Reply::Probed(flags) => {
                    if flags.len() != 2 {
                        self.out_of_turn()
                    } else if repo_has_core_files(flags[0], flags[1]) {
                        let line = StreamLine::tagged(
                            "clone_repo",
                            StreamSource::Stdout,
                            "目标目录已存在，跳过克隆。",
                        );
                        self.ends_saying(line, Ok(String::from_str("SUCCESS")))
                    } else {
                        let line = StreamLine::tagged(
                            "clone_repo",
                            StreamSource::Stderr,
                            "检测到现有仓库缺少关键文件，尝试自动恢复...",
                        );
                        let command = git_in(self.target_dir.as_str(), self.platform).arg(
                            "reset",
                        ).arg("--hard").arg("HEAD");
                        let request = Request::Stream {
                            step: String::from_str("repair_repo_reset"),
                            command,
                        };
                        self.goes(ClonePhase::RepairReset, Turn::saying(line, request))
                    }
                },
                _ => self.out_of_turn(),
            },
            ClonePhase::RepairReset => match reply {
                Reply::Stepped(Ok(())) => {
                    let command = git_in(self.target_dir.as_str(), self.platform).arg("clean").arg(
                        "-fdx",
                    );
                    let request = Request::Stream {
                        step: String::from_str("repair_repo_clean"),
                        command,
                    };
                    self.goes(ClonePhase::RepairClean, Turn::quiet(request))
                },
                Reply::Stepped(Err(failure)) => self.repair_fails(failure),
                _ => self.out_of_turn(),
            },
            ClonePhase::RepairClean => match reply {
                Reply::Stepped(Ok(())) => {
                    let request = core_file_probes(self.target_dir.as_str());
                    self.goes(ClonePhase::RecheckingCoreFiles, Turn::quiet(request))
                },
                Reply::Stepped(Err(failure)) => self.repair_fails(failure),
                _ => self.out_of_turn(),
            },
            ClonePhase::RecheckingCoreFiles => match reply {
                Reply::Probed(flags) => {
                    if flags.len() != 2 {
                        self.out_of_turn()
                    } else if repo_has_core_files(flags[0], flags[1]) {
                        let line = StreamLine::tagged(
                            "clone_repo",
                            StreamSource::Stdout,
                            "仓库修复完成，跳过重新克隆。",
                        );
                        self.ends_saying(line, Ok(String::from_str("SUCCESS")))
                    } else {
                        let message = around(
                            "Repository at '",
                            self.target_dir.as_str(),
                            "' is still missing required files after repair. Please remove the folder and deploy again.",
                        );
                        self.ends_quietly(Err(Failure::Rejected { message }))
                    }
                },
                _ => self.out_of_turn(),
            },
            ClonePhase::InspectingEmpty => match reply {
                Reply::Emptiness(Ok(true)) => match self.policy {
                    EmptyDirPolicy::Remove => {
                        let line = StreamLine::tagged(
                            "clone_repo",
                            StreamSource::Stdout,
                            "检测到一个空目录，自动清理后继续克隆。",
                        );
                        let request = Request::RemoveDir { dir: self.target_dir.clone() };
                        self.goes(ClonePhase::Removing, Turn::saying(line, request))
                    },
                    EmptyDirPolicy::Keep => self.clones(),
                },
                Reply::Emptiness(Ok(false)) => {
                    let message = around(
                        "Target directory '",
                        self.target_dir.as_str(),
                        "' exists, is not a git repository, and contains files. Please choose an empty directory or clean it before retrying.",
                    );
                    self.ends_quietly(Err(Failure::Rejected { message }))
                },
                Reply::Emptiness(Err(detail)) => {
                    let context = around(
                        "Failed to inspect directory '",
                        self.target_dir.as_str(),
                        "'",
                    );
                    self.ends_quietly(Err(Failure::Io { context, detail }))
                },
                _ => self.out_of_turn(),
            },
            ClonePhase::Removing => match reply {
                Reply::Removed(Ok(())) => self.clones(),
                Reply::Removed(Err(detail)) => {
                    let context = around(
                        "Failed to reset empty target directory '",
                        self.target_dir.as_str(),
                        "'",
                    );
                    self.ends_quietly(Err(Failure::Io { context, detail }))
                },
                _ => self.out_of_turn(),
            },
            ClonePhase::Cloning => match reply {
                Reply::Stepped(Ok(())) => self.ends_quietly(Ok(String::from_str("SUCCESS"))),
                Reply::Stepped(Err(failure)) => self.ends_quietly(Err(failure)),
                _ => self.out_of_turn(),
            },
            ClonePhase::Done => Turn::quiet(Request::Done),
        }
    }

    /// Where the plan stands.
    pub fn phase(&self) -> (phase: ClonePhase)
        ensures
            phase == self@.phase,
    {
        self.phase
    }

    /// Gives up the plan for its outcome: `None` while it has none.
    pub fn into_outcome(self) -> (outcome: Option<Result<String, Failure>>)
        ensures
            outcome_view(outcome) == self@.outcome,
    {
        self.outcome
    }
}

impl ClonePhase {
    /// How far a phase is along the plan: every move leads to a phase
    /// further along.
    pub open spec fn rank(self) -> nat {
        match self {
            ClonePhase::Start => 0,
            ClonePhase::ProbingTarget => 1,
            ClonePhase::CheckingWorkTree => 2,
            ClonePhase::CheckingCoreFiles => 3,
            ClonePhase::RepairReset => 4,
            ClonePhase::RepairClean => 5,
            ClonePhase::RecheckingCoreFiles => 6,
            ClonePhase::InspectingEmpty => 7,
            ClonePhase::Removing => 8,
            ClonePhase::Cloning => 9,
            ClonePhase::Done => 10,
        }
    }
}

impl ClonePlanView {
    /// A plan has its outcome exactly when it is done.
    pub open spec fn wf(self) -> bool {
        (self.phase == ClonePhase::Done) == (self.outcome is Some)
    }
}

/// The rule of the clone plan, as a function.
pub open spec fn clone_rule() -> spec_fn(ClonePlanView, ReplyView) -> (ClonePlanView, TurnView) {
    |plan: ClonePlanView, reply: ReplyView| plan.next(reply)
}

/// Whether a move starts the repair of a working copy.
pub open spec fn begins_repair(turn: TurnView) -> bool {
    turn.request matches RequestView::Stream { step, .. } && step == repair_reset_step()
}

/// Every move takes a plan that is not done further along and keeps what it
/// was made for; a plan that is done stays as it is and asks nothing more.
/// Repair starts only from the first look at the core files.
pub proof fn lemma_clone_advances(plan: ClonePlanView, reply: ReplyView)
    ensures
        plan.phase != ClonePhase::Done ==> plan.next(reply).0.phase.rank() > plan.phase.rank(),
        plan.phase == ClonePhase::Done ==> plan.next(reply) == (
            plan,
            TurnView::quiet(RequestView::Done),
        ),
        plan.wf() ==> plan.next(reply).0.wf(),
        plan.next(reply).0.target_dir == plan.target_dir,
        plan.next(reply).0.platform == plan.platform,
        plan.next(reply).0.policy == plan.policy,
        begins_repair(plan.next(reply).1) ==> plan.phase == ClonePhase::CheckingCoreFiles
            && plan.next(reply).0.phase == ClonePhase::RepairReset,
{
    reveal_strlit("clone_repo");
    reveal_strlit("repair_repo_reset");
    reveal_strlit("repair_repo_clean");
    assert(clone_step().len() != repair_reset_step().len());
    assert(repair_clean_step()[12] != repair_reset_step()[12]);
    assert(clone_step() != repair_reset_step());
    assert(repair_clean_step() != repair_reset_step());
}

/// Along any run, phases never go back.
pub proof fn lemma_clone_run_ranks(
    start: ClonePlanView,
    replies: Seq<ReplyView>,
    early: int,
    late: int,
)
    requires
        0 <= early <= late <= replies.len(),
    ensures
        state_after(clone_rule(), start, replies.take(early)).phase.rank() <= state_after(
            clone_rule(),
            start,
            replies.take(late),
        ).phase.rank(),
    decreases late - early,
{
    if early < late {
        lemma_clone_run_ranks(start, replies, early, late - 1);
        lemma_state_after_next(clone_rule(), start, replies, late - 1);
        lemma_clone_advances(
            state_after(clone_rule(), start, replies.take(late - 1)),
            replies[late - 1],
        );
    }
}

/// Whatever the driver reports and in whatever order, a plan starts the
/// repair of a working copy at most once: no two moves of one run both
/// start it.
pub proof fn lemma_repair_at_most_once(
    start: ClonePlanView,
    replies: Seq<ReplyView>,
    first: int,
    second: int,
)
    requires
        0 <= first < second < replies.len(),
    ensures
        !(begins_repair(turn_at(clone_rule(), start, replies, first)) && begins_repair(
            turn_at(clone_rule(), start, replies, second),
        )),
{
    let rule = clone_rule();
    let before_first = state_after(rule, start, replies.take(first));
    let before_second = state_after(rule, start, replies.take(second));
    lemma_clone_advances(before_first, replies[first]);
    lemma_clone_advances(before_second, replies[second]);
    lemma_state_after_next(rule, start, replies, first);
    lemma_clone_run_ranks(start, replies, first + 1, second);
}

/// After a repair, a working copy that still lacks a core file ends the plan
/// with the request to remove the folder: nothing is tried again.
pub proof fn lemma_incomplete_after_repair_is_final(plan: ClonePlanView, flags: Seq<bool>)
    requires
        plan.phase == ClonePhase::RecheckingCoreFiles,
        flags.len() == 2,
        !spec_repo_has_core_files(flags[0], flags[1]),
    ensures
        plan.next(ReplyView::Probed(flags)).0.phase == ClonePhase::Done,
        plan.next(ReplyView::Probed(flags)).0.outcome == Some(
            Err::<Seq<char>, FailureView>(
                FailureView::Rejected { message: still_incomplete_message(plan.target_dir) },
            ),
        ),
        plan.next(ReplyView::Probed(flags)).1 == TurnView::quiet(RequestView::Done),
{
}

} // verus!
