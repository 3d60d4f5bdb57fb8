use indextts_launcher::command::{CommandOutput, CommandSpec};
use indextts_launcher::failure::Failure;
use indextts_launcher::install::{
    install_git_and_lfs, install_python, install_tool, install_uv, os_family, InstallPlan, OsFamily,
    Tool,
};
use indextts_launcher::plan::{Reply, Request};

fn command(program: &str, args: &[&str]) -> Request {
    Request::Capture(CommandSpec {
        program: program.to_string(),
        args: args.iter().map(|a| a.to_string()).collect(),
        current_dir: None,
        envs: Vec::new(),
        creation_flags: None,
    })
}

fn ran(success: bool, stderr: &str) -> Reply {
    Reply::Captured(Ok(CommandOutput {
        success,
        status: String::new(),
        stdout: Vec::new(),
        stderr: stderr.as_bytes().to_vec(),
    }))
}

fn message(plan: InstallPlan) -> String {
    plan.into_outcome().unwrap().unwrap_err().message()
}

#[test]
fn operating_system_families() {
    assert_eq!(os_family("windows"), OsFamily::Windows);
    assert_eq!(os_family("macos"), OsFamily::MacOs);
    assert_eq!(os_family("linux"), OsFamily::Other);
    assert_eq!(os_family(""), OsFamily::Other);
}

#[test]
fn unsupported_system_is_refused_without_any_command() {
    let cases = [
        (Tool::GitAndLfs, "Automatic Git and Git LFS installation is not supported on linux yet. Please install manually."),
        (Tool::Uv, "Automatic uv installation is not supported on linux yet. Please install manually."),
        (Tool::Python, "Automatic Python installation is not supported on linux yet. Please install manually."),
    ];
    for (tool, expected) in cases {
        let mut plan = install_tool(tool, "linux");
        assert_eq!(plan.next(Reply::Start).request, Request::Done);
        let failure = plan.into_outcome().unwrap().unwrap_err();
        assert!(matches!(failure, Failure::UnsupportedPlatform { .. }));
        assert_eq!(failure.message(), expected);
    }
}

#[test]
fn winget_installs() {
    let cases = [
        (install_git_and_lfs("windows"), vec!["install", "--id", "Git.Git", "-e", "--source", "winget"]),
        (install_uv("windows"), vec!["install", "--id", "astral-sh.uv", "-e"]),
        (install_python("windows"), vec!["install", "--id", "Python.Python.3.10", "-e"]),
    ];
    for (mut plan, args) in cases {
        assert_eq!(plan.next(Reply::Start).request, command("winget", &["--version"]));
        assert_eq!(plan.next(ran(true, "")).request, command("winget", &args));
        assert_eq!(plan.next(ran(true, "")).request, Request::Done);
        assert_eq!(plan.into_outcome(), Some(Ok("SUCCESS".to_string())));
    }
}

#[test]
fn brew_installs() {
    let cases = [
        (install_git_and_lfs("macos"), vec!["install", "git", "git-lfs"]),
        (install_uv("macos"), vec!["install", "uv"]),
        (install_python("macos"), vec!["install", "python@3.10"]),
    ];
    for (mut plan, args) in cases {
        assert_eq!(plan.next(Reply::Start).request, command("brew", &["--version"]));
        assert_eq!(plan.next(ran(true, "")).request, command("brew", &args));
        assert_eq!(plan.next(ran(true, "")).request, Request::Done);
        assert_eq!(plan.into_outcome(), Some(Ok("SUCCESS".to_string())));
    }
}

#[test]
fn missing_winget() {
    let cases = [
        (Tool::GitAndLfs, "Winget not found. Please install Git and Git LFS manually from https://git-scm.com/download/win"),
        (Tool::Uv, "Winget not found. Please install uv manually from https://docs.astral.sh/uv/install"),
        (Tool::Python, "Winget not found. Please install Python manually from https://www.python.org/downloads/windows/"),
    ];
    for (tool, expected) in cases {
        let mut plan = install_tool(tool, "windows");
        plan.next(Reply::Start);
        assert_eq!(plan.next(Reply::Captured(Err("not found".to_string()))).request, Request::Done);
        assert_eq!(message(plan), expected);
    }
}

#[test]
fn missing_brew() {
    let mut plan = install_git_and_lfs("macos");
    plan.next(Reply::Start);
    plan.next(ran(false, ""));
    assert_eq!(
        message(plan),
        "Homebrew not found. Please install Git and Git LFS manually, or install Homebrew first from https://brew.sh"
    );
    let mut plan = install_python("macos");
    plan.next(Reply::Start);
    plan.next(ran(false, ""));
    assert_eq!(
        message(plan),
        "Homebrew not found. Please install Python manually from https://www.python.org/downloads/mac-osx/"
    );
}

#[test]
fn uv_falls_back_to_its_script_on_macos() {
    let mut plan = install_uv("macos");
    plan.next(Reply::Start);
    assert_eq!(
        plan.next(ran(false, "")).request,
        command("sh", &["-c", "curl -LsSf https://astral.sh/uv/install.sh | sh"])
    );
    assert_eq!(plan.next(ran(true, "")).request, Request::Done);
    assert_eq!(plan.into_outcome(), Some(Ok("SUCCESS".to_string())));

    let mut plan = install_uv("macos");
    plan.next(Reply::Start);
    plan.next(ran(false, ""));
    plan.next(ran(false, "curl: (6) Could not resolve host"));
    assert_eq!(message(plan), "Curl script uv installation failed: curl: (6) Could not resolve host");

    let mut plan = install_uv("macos");
    plan.next(Reply::Start);
    plan.next(ran(false, ""));
    plan.next(Reply::Captured(Err("no sh".to_string())));
    assert_eq!(message(plan), "Failed to execute curl script for uv: no sh");
}

#[test]
fn failed_installations() {
    let cases = [
        (Tool::GitAndLfs, "windows", "Winget Git installation failed: E", "Failed to execute winget for Git: S"),
        (Tool::Uv, "windows", "Winget uv installation failed: E", "Failed to execute winget for uv: S"),
        (Tool::Python, "windows", "Winget Python installation failed: E", "Failed to execute winget for Python: S"),
        (Tool::GitAndLfs, "macos", "Homebrew Git and Git LFS installation failed: E", "Failed to execute brew for Git and Git LFS: S"),
        (Tool::Uv, "macos", "Homebrew uv installation failed: E", "Failed to execute brew for uv: S"),
        (Tool::Python, "macos", "Homebrew Python installation failed: E", "Failed to execute brew for Python: S"),
    ];
    for (tool, os, failed, spawn) in cases {
        let mut plan = install_tool(tool, os);
        plan.next(Reply::Start);
        plan.next(ran(true, ""));
        plan.next(ran(false, "E"));
        assert_eq!(message(plan), failed);
        let mut plan = install_tool(tool, os);
        plan.next(Reply::Start);
        plan.next(ran(true, ""));
        plan.next(Reply::Captured(Err("S".to_string())));
        assert_eq!(message(plan), spawn);
    }
}

#[test]
fn install_out_of_turn() {
    let mut plan = install_uv("macos");
    assert_eq!(plan.next(Reply::Slept).request, Request::Done);
    assert_eq!(plan.into_outcome(), Some(Err(Failure::OutOfTurn)));
}
