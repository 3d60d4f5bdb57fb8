//! Which of the tools that deployment needs are installed: each is asked
//! for its version, and counts as installed when that works.

use vstd::prelude::*;
use vstd::string::StringExecFns;
use crate::command::{CommandOutput, CommandOutputView, CommandSpec, CommandSpecView, ran_view};
use crate::failure::{Failure, FailureView};
use crate::plan::{Reply, ReplyView, Request, RequestView, Turn, TurnView};

verus! {

/// Which tools are installed.
#[derive(Clone, Copy, Debug, PartialEq, Eq, Structural)]
pub struct ToolStatus {
    pub git_installed: bool,
    pub git_lfs_installed: bool,
    pub python_installed: bool,
    pub uv_installed: bool,
    pub cuda_toolkit_installed: bool,
}

/// The command that asks a tool for its version.
pub open spec fn spec_version_probe(name: Seq<char>, version_arg: Seq<char>) -> CommandSpecView {
    CommandSpecView::new(name).arg(version_arg)
}

/// The command that asks a tool for its version.
pub fn version_probe(name: &str, version_arg: &str) -> (command: CommandSpec)
    ensures
        command@ == spec_version_probe(name@, version_arg@),
{
    CommandSpec::new(name).arg(version_arg)
}

/// Whether a probe shows the tool to be installed: it could be run and
/// reported success.
pub open spec fn spec_probe_passed(ran: Result<CommandOutputView, Seq<char>>) -> bool {
    ran matches Ok(output) && output.success
}

/// Whether a probe shows the tool to be installed.
pub fn probe_passed(ran: &Result<CommandOutput, String>) -> (passed: bool)
    ensures
        passed == spec_probe_passed(ran_view(*ran)),
{
    match ran {
        Ok(output) => output.success,
        Err(_) => false,
    }
}

/// Where a tool check stands: which tool has been asked.
#[derive(Clone, Copy, Debug, PartialEq, Eq, Structural)]
pub enum ToolPhase {
    Start,
    Git,
    GitLfs,
    Uv,
    Python,
    Python3,
    Nvcc,
    Done,
}

/// A tool check as a value.
pub struct ToolCheckView {
    pub phase: ToolPhase,
    pub found: ToolStatus,
    pub outcome: Option<Result<ToolStatus, FailureView>>,
}

impl ToolCheckView {
    pub open spec fn start() -> ToolCheckView {
        ToolCheckView {
            phase: ToolPhase::Start,
            found: ToolStatus {
                git_installed: false,
                git_lfs_installed: false,
                python_installed: false,
                uv_installed: false,
                cuda_toolkit_installed: false,
            },
            outcome: None,
        }
    }

    pub open spec fn asks(self, phase: ToolPhase, name: Seq<char>, version_arg: Seq<char>) -> (
        ToolCheckView,
        TurnView,
    ) {
        (
            ToolCheckView { phase, ..self },
            TurnView::quiet(RequestView::Capture(spec_version_probe(name, version_arg))),
        )
    }

    pub open spec fn ends(self, outcome: Result<ToolStatus, FailureView>) -> (
        ToolCheckView,
        TurnView,
    ) {
        (
            ToolCheckView { phase: ToolPhase::Done, outcome: Some(outcome), ..self },
            TurnView::quiet(RequestView::Done),
        )
    }

    /// The check's next state and move on `reply`. The tools are asked in
    /// a fixed order; the second name of the Python interpreter is tried
    /// only where the first is not installed.
    pub open spec fn next(self, reply: ReplyView) -> (ToolCheckView, TurnView) {
        let out_of_turn = self.ends(Err(FailureView::OutOfTurn));
        match self.phase {
            ToolPhase::Done => (self, TurnView::quiet(RequestView::Done)),
            ToolPhase::Start => match reply {
                ReplyView::Start => self.asks(ToolPhase::Git, "git"@, "--version"@),
                _ => out_of_turn,
            },
            _ => match reply {
                ReplyView::Captured(ran) => {
                    let passed = spec_probe_passed(ran);
                    let found = self.found;
                    match self.phase {
                        ToolPhase::Git => (ToolCheckView {
                            found: ToolStatus { git_installed: passed, ..found },
                            ..self
                        }).asks(ToolPhase::GitLfs, "git-lfs"@, "version"@),
                        ToolPhase::GitLfs => (ToolCheckView {
                            found: ToolStatus { git_lfs_installed: passed, ..found },
                            ..self
                        }).asks(ToolPhase::Uv, "uv"@, "--version"@),
                        ToolPhase::Uv => (ToolCheckView {
                            found: ToolStatus { uv_installed: passed, ..found },
                            ..self
                        }).asks(ToolPhase::Python, "python"@, "--version"@),
                        ToolPhase::Python => {
                            let noted = ToolCheckView {
                                found: ToolStatus { python_installed: passed, ..found },
                                ..self
                            };
                            if passed {
                                noted.asks(ToolPhase::Nvcc, "nvcc"@, "--version"@)
                            } else {
                                noted.asks(ToolPhase::Python3, "python3"@, "--version"@)
                            }
                        },
                        ToolPhase::Python3 => (ToolCheckView {
                            found: ToolStatus { python_installed: passed, ..found },
                            ..self
                        }).asks(ToolPhase::Nvcc, "nvcc"@, "--version"@),
                        _ => {
                            let all = ToolStatus { cuda_toolkit_installed: passed, ..found };
                            (ToolCheckView { found: all, ..self }).ends(Ok(all))
                        },
                    }
                },
                _ => out_of_turn,
            },
        }
    }
}

pub open spec fn tools_outcome_view(outcome: Option<Result<ToolStatus, Failure>>) -> Option<
    Result<ToolStatus, FailureView>,
> {
    match outcome {
        Some(Ok(status)) => Some(Ok(status)),
        Some(Err(failure)) => Some(Err(failure@)),
        None => None,
    }
}

/// The plan that finds out which tools are installed.
pub struct ToolCheck {
    phase: ToolPhase,
    found: ToolStatus,
    outcome: Option<Result<ToolStatus, Failure>>,
}

impl View for ToolCheck {
    type V = ToolCheckView;

    closed spec fn view(&self) -> ToolCheckView {
        ToolCheckView {
            phase: self.phase,
            found: self.found,
            outcome: tools_outcome_view(self.outcome),
        }
    }
}

/// Plans the check of the tools.
pub fn check_tools() -> (plan: ToolCheck)
    ensures
        plan@ == ToolCheckView::start(),
{
    ToolCheck {
        phase: ToolPhase::Start,
        found: ToolStatus {
            git_installed: false,
            git_lfs_installed: false,
            python_installed: false,
            uv_installed: false,
            cuda_toolkit_installed: false,
        },
        outcome: None,
    }
}

impl ToolCheck {
    fn asks(&mut self, phase: ToolPhase, name: &str, version_arg: &str) -> (made: Turn)
        ensures
            (final(self)@, made@) == old(self)@.asks(phase, name@, version_arg@),
    {
        self.phase = phase;
        Turn::quiet(Request::Capture(version_probe(name, version_arg)))
    }

    fn ends(&mut self, outcome: Result<ToolStatus, Failure>) -> (made: Turn)
        ensures
            (final(self)@, made@) == old(self)@.ends(
                match outcome {
                    Ok(status) => Ok(status),
                    Err(failure) => Err(failure@),
                },
            ),
    {
        self.phase = ToolPhase::Done;
        self.outcome = Some(outcome);
        Turn::quiet(Request::Done)
    }

    /// Takes the driver's reply and makes the plan's next move.
    pub fn next(&mut self, reply: Reply) -> (turn: Turn)
        ensures
            (final(self)@, turn@) == old(self)@.next(reply@),
    {
        match self.phase {
            ToolPhase::Done => Turn::quiet(Request::Done),
            ToolPhase::Start => match reply {
                Reply::Start => self.asks(ToolPhase::Git, "git", "--version"),
                _ => self.ends(Err(Failure::OutOfTurn)),
            },
            phase => match reply {
                Reply::Captured(ran) => {
                    let passed = probe_passed(&ran);
                    match phase {
                        ToolPhase::Git => {
                            self.found.git_installed = passed;
                            self.asks(ToolPhase::GitLfs, "git-lfs", "version")
                        },
                        ToolPhase::GitLfs => {
                            self.found.git_lfs_installed = passed;
                            self.asks(ToolPhase::Uv, "uv", "--version")
                        },
                        ToolPhase::Uv => {
                            self.found.uv_installed = passed;
                            self.asks(ToolPhase::Python, "python", "--version")
                        },
                        ToolPhase::Python => {
                            self.found.python_installed = passed;
                            if passed {
                                self.asks(ToolPhase::Nvcc, "nvcc", "--version")
                            } else {
                                self.asks(ToolPhase::Python3, "python3", "--version")
                            }
                        },
                        ToolPhase::Python3 => {
                            self.found.python_installed = passed;
                            self.asks(ToolPhase::Nvcc, "nvcc", "--version")
                        },
                        _ => {
                            self.found.cuda_toolkit_installed = passed;
                            let all = self.found;
                            self.ends(Ok(all))
                        },
                    }
                },
                _ => self.ends(Err(Failure::OutOfTurn)),
            },
        }
    }

    /// Gives up the plan for its outcome: `None` while it has none.
    pub fn into_outcome(self) -> (outcome: Option<Result<ToolStatus, Failure>>)
        ensures
            tools_outcome_view(outcome) == self@.outcome,
    {
        self.outcome
    }
}

} // verus!
