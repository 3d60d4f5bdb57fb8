use indextts_launcher::command::{CommandOutput, CommandSpec};
use indextts_launcher::failure::Failure;
use indextts_launcher::plan::{Reply, Request};
use indextts_launcher::tools::{check_tools, probe_passed, version_probe, ToolStatus};

fn ran(success: bool) -> Result<CommandOutput, String> {
    Ok(CommandOutput { success, status: String::new(), stdout: Vec::new(), stderr: Vec::new() })
}

fn probe(name: &str, arg: &str) -> Request {
    Request::Capture(CommandSpec {
        program: name.to_string(),
        args: vec![arg.to_string()],
        current_dir: None,
        envs: Vec::new(),
        creation_flags: None,
    })
}

#[test]
fn probe_passes_only_on_success() {
    assert!(probe_passed(&ran(true)));
    assert!(!probe_passed(&ran(false)));
    assert!(!probe_passed(&Err("not found".to_string())));
    assert_eq!(Request::Capture(version_probe("git", "--version")), probe("git", "--version"));
}

#[test]
fn all_tools_installed() {
    let mut plan = check_tools();
    assert_eq!(plan.next(Reply::Start).request, probe("git", "--version"));
    assert_eq!(plan.next(Reply::Captured(ran(true))).request, probe("git-lfs", "version"));
    assert_eq!(plan.next(Reply::Captured(ran(true))).request, probe("uv", "--version"));
    assert_eq!(plan.next(Reply::Captured(ran(true))).request, probe("python", "--version"));
    assert_eq!(plan.next(Reply::Captured(ran(true))).request, probe("nvcc", "--version"));
    assert_eq!(plan.next(Reply::Captured(ran(true))).request, Request::Done);
    assert_eq!(
        plan.into_outcome(),
        Some(Ok(ToolStatus {
            git_installed: true,
            git_lfs_installed: true,
            python_installed: true,
            uv_installed: true,
            cuda_toolkit_installed: true,
        }))
    );
}

#[test]
fn second_python_name_is_tried_when_the_first_is_missing() {
    let mut plan = check_tools();
    plan.next(Reply::Start);
    plan.next(Reply::Captured(ran(false)));
    plan.next(Reply::Captured(Err("no git-lfs".to_string())));
    assert_eq!(plan.next(Reply::Captured(ran(true))).request, probe("python", "--version"));
    assert_eq!(plan.next(Reply::Captured(ran(false))).request, probe("python3", "--version"));
    assert_eq!(plan.next(Reply::Captured(ran(true))).request, probe("nvcc", "--version"));
    assert_eq!(plan.next(Reply::Captured(Err("no nvcc".to_string()))).request, Request::Done);
    assert_eq!(
        plan.into_outcome(),
        Some(Ok(ToolStatus {
            git_installed: false,
            git_lfs_installed: false,
            python_installed: true,
            uv_installed: true,
            cuda_toolkit_installed: false,
        }))
    );
}

#[test]
fn no_python_under_either_name() {
    let mut plan = check_tools();
    plan.next(Reply::Start);
    for _ in 0..3 {
        plan.next(Reply::Captured(ran(true)));
    }
    plan.next(Reply::Captured(ran(false)));
    plan.next(Reply::Captured(ran(false)));
    plan.next(Reply::Captured(ran(true)));
    let status = plan.into_outcome().unwrap().unwrap();
    assert!(!status.python_installed);
    assert!(status.cuda_toolkit_installed);
}

#[test]
fn tool_check_out_of_turn() {
    let mut plan = check_tools();
    plan.next(Reply::Start);
    assert_eq!(plan.next(Reply::Start).request, Request::Done);
    assert_eq!(plan.into_outcome(), Some(Err(Failure::OutOfTurn)));
}
