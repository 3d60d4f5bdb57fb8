//! Installing the tools that deployment needs with the package manager of
//! the operating system: winget on Windows, Homebrew on macOS. The manager
//! is asked for its version first; where it is missing the operator is told
//! what to install by hand, except that the package manager for Python has
//! an installer script of its own on macOS.

use vstd::prelude::*;
use vstd::string::StringExecFns;
use crate::command::{
    capture_verdict,
    spec_capture_verdict,
    CommandSpec,
    CommandSpecView,
};
use crate::failure::{Failure, FailureView};
use crate::plan::{
    outcome_view,Reply, ReplyView, Request, RequestView, Turn, TurnView};
use crate::tools::{probe_passed, spec_probe_passed, spec_version_probe, version_probe};

verus! {

/// What to install.
#[derive(Clone, Copy, Debug, PartialEq, Eq, Structural)]
pub enum Tool {
    GitAndLfs,
    Uv,
    Python,
}

/// The operating systems that have a package manager this library uses.
#[derive(Clone, Copy, Debug, PartialEq, Eq, Structural)]
pub enum OsFamily {
    Windows,
    MacOs,
    Other,
}

/// The family of the operating system with the given name.
pub open spec fn spec_os_family(os: Seq<char>) -> OsFamily {
    if os == "windows"@ {
        OsFamily::Windows
    } else if os == "macos"@ {
        OsFamily::MacOs
    } else {
        OsFamily::Other
    }
}

/// The family of the operating system with the given name.
pub fn os_family(os: &str) -> (family: OsFamily)
    ensures
        family == spec_os_family(os@),
{
    let name = String::from_str(os);
    if name == String::from_str("windows") {
        OsFamily::Windows
    } else if name == String::from_str("macos") {
        OsFamily::MacOs
    } else {
        OsFamily::Other
    }
}

impl Tool {
    /// The tool's name in messages.
    pub open spec fn label(self) -> Seq<char> {
        match self {
            Tool::GitAndLfs => "Git and Git LFS"@,
            Tool::Uv => "uv"@,
            Tool::Python => "Python"@,
        }
    }

    /// The tool's name in what is said of winget.
    pub open spec fn winget_label(self) -> Seq<char> {
        match self {
            Tool::GitAndLfs => "Git"@,
            Tool::Uv => "uv"@,
            Tool::Python => "Python"@,
        }
    }

    /// The identifier of the tool's winget package.
    pub open spec fn winget_id(self) -> Seq<char> {
        match self {
            Tool::GitAndLfs => "Git.Git"@,
            Tool::Uv => "astral-sh.uv"@,
            Tool::Python => "Python.Python.3.10"@,
        }
    }

    /// Where to get the tool by hand.
    pub open spec fn manual_source(self, family: OsFamily) -> Seq<char> {
        match self {
            Tool::GitAndLfs => "https://git-scm.com/download/win"@,
            Tool::Uv => "https://docs.astral.sh/uv/install"@,
            Tool::Python => if family == OsFamily::MacOs {
                "https://www.python.org/downloads/mac-osx/"@
            } else {
                "https://www.python.org/downloads/windows/"@
            },
        }
    }
}

/// What is said where the operating system has no package manager that
/// this library uses.
pub open spec fn unsupported_os_message(tool: Tool, os: Seq<char>) -> Seq<char> {
    "Automatic "@ + tool.label() + " installation is not supported on "@ + os
        + " yet. Please install manually."@
}

/// The name of the package manager.
pub open spec fn manager_name(family: OsFamily) -> Seq<char> {
    if family == OsFamily::Windows {
        "winget"@
    } else {
        "brew"@
    }
}

/// The command that installs the tool with the package manager.
pub open spec fn spec_install_command(tool: Tool, family: OsFamily) -> CommandSpecView {
    if family == OsFamily::Windows {
        let install = CommandSpecView::new("winget"@).arg("install"@).arg("--id"@).arg(
            tool.winget_id(),
        ).arg("-e"@);
        if tool == Tool::GitAndLfs {
            install.arg("--source"@).arg("winget"@)
        } else {
            install
        }
    } else {
        let install = CommandSpecView::new("brew"@).arg("install"@);
        match tool {
            Tool::GitAndLfs => install.arg("git"@).arg("git-lfs"@),
            Tool::Uv => install.arg("uv"@),
            Tool::Python => install.arg("python@3.10"@),
        }
    }
}

/// What is said where the installing command cannot be run.
pub open spec fn install_spawn_context(tool: Tool, family: OsFamily) -> Seq<char> {
    if family == OsFamily::Windows {
        "Failed to execute winget for "@ + tool.winget_label()
    } else {
        "Failed to execute brew for "@ + tool.label()
    }
}

/// What is said where the installing command reports failure.
pub open spec fn install_failure_context(tool: Tool, family: OsFamily) -> Seq<char> {
    if family == OsFamily::Windows {
        "Winget "@ + tool.winget_label() + " installation failed"@
    } else {
        "Homebrew "@ + tool.label() + " installation failed"@
    }
}

/// What is said where the package manager is missing.
pub open spec fn missing_manager_message(tool: Tool, family: OsFamily) -> Seq<char> {
    if family == OsFamily::Windows {
        "Winget not found. Please install "@ + tool.label() + " manually from "@
            + tool.manual_source(family)
    } else if tool == Tool::GitAndLfs {
        "Homebrew not found. Please install Git and Git LFS manually, or install Homebrew first from https://brew.sh"@
    } else {
        "Homebrew not found. Please install "@ + tool.label() + " manually from "@
            + tool.manual_source(family)
    }
}

/// Whether the tool can be installed without the package manager.
pub open spec fn has_fallback(tool: Tool, family: OsFamily) -> bool {
    tool == Tool::Uv && family == OsFamily::MacOs
}

/// The command that installs the package manager for Python with its own
/// script.
pub open spec fn spec_fallback_command() -> CommandSpecView {
    CommandSpecView::new("sh"@).arg("-c"@).arg(
        "curl -LsSf https://astral.sh/uv/install.sh | sh"@,
    )
}

/// Where an installation stands.
#[derive(Clone, Copy, Debug, PartialEq, Eq, Structural)]
pub enum InstallPhase {
    Start,
    ProbingManager,
    Installing,
    InstallingFallback,
    Done,
}

/// An installation as a value.
pub struct InstallPlanView {
    pub tool: Tool,
    pub os: Seq<char>,
    pub phase: InstallPhase,
    pub outcome: Option<Result<Seq<char>, FailureView>>,
}

impl InstallPlanView {
    pub open spec fn start(tool: Tool, os: Seq<char>) -> InstallPlanView {
        InstallPlanView { tool, os, phase: InstallPhase::Start, outcome: None }
    }

    pub open spec fn family(self) -> OsFamily {
        spec_os_family(self.os)
    }

    pub open spec fn goes(self, phase: InstallPhase, command: CommandSpecView) -> (
        InstallPlanView,
        TurnView,
    ) {
        (InstallPlanView { phase, ..self }, TurnView::quiet(RequestView::Capture(command)))
    }

    pub open spec fn ends(self, outcome: Result<Seq<char>, FailureView>) -> (
        InstallPlanView,
        TurnView,
    ) {
        (
            InstallPlanView { phase: InstallPhase::Done, outcome: Some(outcome), ..self },
            TurnView::quiet(RequestView::Done),
        )
    }

    /// The installation's next state and move on `reply`.
    pub open spec fn next(self, reply: ReplyView) -> (InstallPlanView, TurnView) {
        let family = self.family();
        let out_of_turn = self.ends(Err(FailureView::OutOfTurn));
        match self.phase {
            InstallPhase::Start => match reply {
                ReplyView::Start => if family == OsFamily::Other {
                    self.ends(
                        Err(
                            FailureView::UnsupportedPlatform {
                                message: unsupported_os_message(self.tool, self.os),
                            },
                        ),
                    )
                } else {
                    self.goes(
                        InstallPhase::ProbingManager,
                        spec_version_probe(manager_name(family), "--version"@),
                    )
                },
                _ => out_of_turn,
            },
            InstallPhase::ProbingManager => match reply {
                ReplyView::Captured(ran) => if spec_probe_passed(ran) {
                    self.goes(InstallPhase::Installing, spec_install_command(self.tool, family))
                } else if has_fallback(self.tool, family) {
                    self.goes(InstallPhase::InstallingFallback, spec_fallback_command())
                } else {
                    self.ends(
                        Err(
                            FailureView::Rejected {
                                message: missing_manager_message(self.tool, family),
                            },
                        ),
                    )
                },
                _ => out_of_turn,
            },
            InstallPhase::Installing => match reply {
                ReplyView::Captured(ran) => match spec_capture_verdict(
                    ran,
                    install_spawn_context(self.tool, family),
                    install_failure_context(self.tool, family),
                ) {
                    Ok(_) => self.ends(Ok("SUCCESS"@)),
                    Err(failure) => self.ends(Err(failure)),
                },
                _ => out_of_turn,
            },
            InstallPhase::InstallingFallback => match reply {
                ReplyView::Captured(ran) => match spec_capture_verdict(
                    ran,
                    "Failed to execute curl script for uv"@,
                    "Curl script uv installation failed"@,
                ) {
                    Ok(_) => self.ends(Ok("SUCCESS"@)),
                    Err(failure) => self.ends(Err(failure)),
                },
                _ => out_of_turn,
            },
            InstallPhase::Done => (self, TurnView::quiet(RequestView::Done)),
        }
    }
}

fn label(tool: Tool) -> (text: &'static str)
    ensures
        text@ == tool.label(),
{
    match tool {
        Tool::GitAndLfs => "Git and Git LFS",
        Tool::Uv => "uv",
        Tool::Python => "Python",
    }
}

fn winget_label(tool: Tool) -> (text: &'static str)
    ensures
        text@ == tool.winget_label(),
{
    match tool {
        Tool::GitAndLfs => "Git",
        Tool::Uv => "uv",
        Tool::Python => "Python",
    }
}

fn manual_source(tool: Tool, family: OsFamily) -> (text: &'static str)
    ensures
        text@ == tool.manual_source(family),
{
    match tool {
        Tool::GitAndLfs => "https://git-scm.com/download/win",
        Tool::Uv => "https://docs.astral.sh/uv/install",
        Tool::Python => match family {
            OsFamily::MacOs => "https://www.python.org/downloads/mac-osx/",
            _ => "https://www.python.org/downloads/windows/",
        },
    }
}

/// `first`, `second` and `third` written one after another.
fn three(first: &str, second: &str, third: &str) -> (text: String)
    ensures
        text@ == first@ + second@ + third@,
{
    let mut text = String::from_str(first);
    text.append(second);
    text.append(third);
    text
}

fn install_command(tool: Tool, family: OsFamily) -> (command: CommandSpec)
    ensures
        command@ == spec_install_command(tool, family),
{
    match family {
        OsFamily::Windows => {
            let id = match tool {
                Tool::GitAndLfs => "Git.Git",
                Tool::Uv => "astral-sh.uv",
                Tool::Python => "Python.Python.3.10",
            };
            let install = CommandSpec::new("winget").arg("install").arg("--id").arg(id).arg("-e");
            match tool {
                Tool::GitAndLfs => install.arg("--source").arg("winget"),
                _ => install,
            }
        },
        _ => {
            let install = CommandSpec::new("brew").arg("install");
            match tool {
                Tool::GitAndLfs => install.arg("git").arg("git-lfs"),
                Tool::Uv => install.arg("uv"),
                Tool::Python => install.arg("python@3.10"),
            }
        },
    }
}

fn missing_manager(tool: Tool, family: OsFamily) -> (text: String)
    ensures
        text@ == missing_manager_message(tool, family),
{
    match family {
        OsFamily::Windows => {
            let mut text = three("Winget not found. Please install ", label(tool), " manually from ");
            text.append(manual_source(tool, family));
            text
        },
        _ => match tool {
            Tool::GitAndLfs => String::from_str(
                "Homebrew not found. Please install Git and Git LFS manually, or install Homebrew first from https://brew.sh",
            ),
            _ => {
                let mut text = three(
                    "Homebrew not found. Please install ",
                    label(tool),
                    " manually from ",
                );
                text.append(manual_source(tool, family));
                text
            },
        },
    }
}

/// The plan that installs one tool.
pub struct InstallPlan {
    tool: Tool,
    os: String,
    phase: InstallPhase,
    outcome: Option<Result<String, Failure>>,
}

impl View for InstallPlan {
    type V = InstallPlanView;

    closed spec fn view(&self) -> InstallPlanView {
        InstallPlanView {
            tool: self.tool,
            os: self.os@,
            phase: self.phase,
            outcome: outcome_view(self.outcome),
        }
    }
}

/// Plans the installation of `tool` on the operating system named `os`.
pub fn install_tool(tool: Tool, os: &str) -> (plan: InstallPlan)
    ensures
        plan@ == InstallPlanView::start(tool, os@),
{
    InstallPlan { tool, os: String::from_str(os), phase: InstallPhase::Start, outcome: None }
}

/// Plans the installation of the version control and its large-file
/// support.
pub fn install_git_and_lfs(os: &str) -> (plan: InstallPlan)
    ensures
        plan@ == InstallPlanView::start(Tool::GitAndLfs, os@),
{
    install_tool(Tool::GitAndLfs, os)
}

/// Plans the installation of the package manager for Python.
pub fn install_uv(os: &str) -> (plan: InstallPlan)
    ensures
        plan@ == InstallPlanView::start(Tool::Uv, os@),
{
    install_tool(Tool::Uv, os)
}

/// Plans the installation of the Python interpreter.
pub fn install_python(os: &str) -> (plan: InstallPlan)
    ensures
        plan@ == InstallPlanView::start(Tool::Python, os@),
{
    install_tool(Tool::Python, os)
}

impl InstallPlan {
    fn goes(&mut self, phase: InstallPhase, command: CommandSpec) -> (made: Turn)
        ensures
            (final(self)@, made@) == old(self)@.goes(phase, command@),
    {
        self.phase = phase;
        Turn::quiet(Request::Capture(command))
    }

    fn ends(&mut self, outcome: Result<String, Failure>) -> (made: Turn)
        ensures
            (final(self)@, made@) == old(self)@.ends(
                match outcome {
                    Ok(text) => Ok(text@),
                    Err(failure) => Err(failure@),
                },
            ),
    {
        self.phase = InstallPhase::Done;
        self.outcome = Some(outcome);
        Turn::quiet(Request::Done)
    }

    /// Takes the driver's reply and makes the plan's next move.
    pub fn next(&mut self, reply: Reply) -> (turn: Turn)
        ensures
            (final(self)@, turn@) == old(self)@.next(reply@),
    {
        let family = os_family(self.os.as_str());
        let tool = self.tool;
        match self.phase {
            InstallPhase::Start => match reply {
                Reply::Start => match family {
                    OsFamily::Other => {
                        let mut message = three(
                            "Automatic ",
                            label(tool),
                            " installation is not supported on ",
                        );
                        message.append(self.os.as_str());
                        message.append(" yet. Please install manually.");
                        self.ends(Err(Failure::UnsupportedPlatform { message }))
                    },
                    OsFamily::Windows => self.goes(
                        InstallPhase::ProbingManager,
                        version_probe("winget", "--version"),
                    ),
                    OsFamily::MacOs => self.goes(
                        InstallPhase::ProbingManager,
                        version_probe("brew", "--version"),
                    ),
                },
                _ => self.ends(Err(Failure::OutOfTurn)),
            },
            InstallPhase::ProbingManager => match reply {
                Reply::Captured(ran) => {
                    if probe_passed(&ran) {
                        self.goes(InstallPhase::Installing, install_command(tool, family))
                    } else if tool == Tool::Uv && family == OsFamily::MacOs {
                        let command = CommandSpec::new("sh").arg("-c").arg(
                            "curl -LsSf https://astral.sh/uv/install.sh | sh",
                        );
                        self.goes(InstallPhase::InstallingFallback, command)
                    } else {
                        let message = missing_manager(tool, family);
                        self.ends(Err(Failure::Rejected { message }))
                    }
                },
                _ => self.ends(Err(Failure::OutOfTurn)),
            },
            InstallPhase::Installing => match reply {
                Reply::Captured(ran) => {
                    let mut spawn_context = match family {
                        OsFamily::Windows => String::from_str("Failed to execute winget for "),
                        _ => String::from_str("Failed to execute brew for "),
                    };
                    match family {
                        OsFamily::Windows => spawn_context.append(winget_label(tool)),
                        _ => spawn_context.append(label(tool)),
                    }
                    let failure_context = match family {
                        OsFamily::Windows => three(
                            "Winget ",
                            winget_label(tool),
                            " installation failed",
                        ),
                        _ => three("Homebrew ", label(tool), " installation failed"),
                    };
                    match capture_verdict(
                        ran,
                        spawn_context.as_str(),
                        failure_context.as_str(),
                    ) {
                        Ok(_) => self.ends(Ok(String::from_str("SUCCESS"))),
                        Err(failure) => self.ends(Err(failure)),
                    }
                },
                _ => self.ends(Err(Failure::OutOfTurn)),
            },
            InstallPhase::InstallingFallback => match reply {
                Reply::Captured(ran) => match capture_verdict(
                    ran,
                    "Failed to execute curl script for uv",
                    "Curl script uv installation failed",
                ) {
                    Ok(_) => self.ends(Ok(String::from_str("SUCCESS"))),
                    Err(failure) => self.ends(Err(failure)),
                },
                _ => self.ends(Err(Failure::OutOfTurn)),
            },
            InstallPhase::Done => Turn::quiet(Request::Done),
        }
    }

    /// Gives up the plan for its outcome: `None` while it has none.
    pub fn into_outcome(self) -> (outcome: Option<Result<String, Failure>>)
        ensures
            outcome_view(outcome) == self@.outcome,
    {
        self.outcome
    }
}

} // verus!
