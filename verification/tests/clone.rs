use indextts_launcher::clone::{
    clone_index_tts_repo, repo_has_core_files, ClonePhase, ClonePlan, EmptyDirPolicy,
};
use indextts_launcher::command::{CommandOutput, CommandSpec, Platform};
use indextts_launcher::failure::Failure;
use indextts_launcher::plan::{PathProbe, Reply, Request, Turn};
use indextts_launcher::stream::{StreamLine, StreamSource};

fn plan(dir: &str) -> ClonePlan {
    clone_index_tts_repo(dir.to_string(), Platform::Linux, EmptyDirPolicy::Remove)
}

fn output(success: bool) -> CommandOutput {
    CommandOutput {
        success,
        status: if success { "exit status: 0".into() } else { "exit status: 128".into() },
        stdout: Vec::new(),
        stderr: Vec::new(),
    }
}

fn git(args: &[&str]) -> CommandSpec {
    CommandSpec {
        program: "git".to_string(),
        args: args.iter().map(|a| a.to_string()).collect(),
        current_dir: None,
        envs: Vec::new(),
        creation_flags: None,
    }
}

fn core_probes(dir: &str) -> Request {
    Request::Probe(vec![
        PathProbe { base: dir.to_string(), child: Some("pyproject.toml".to_string()), must_be_dir: false },
        PathProbe { base: dir.to_string(), child: Some("webui.py".to_string()), must_be_dir: false },
    ])
}

fn log(stream: StreamSource, text: &str) -> StreamLine {
    StreamLine { step: Some("clone_repo".to_string()), stream, text: text.to_string() }
}

fn quiet(request: Request) -> Turn {
    Turn { logs: Vec::new(), request }
}

fn clone_request(dir: &str) -> Request {
    Request::Stream {
        step: "clone_repo".to_string(),
        command: git(&["clone", "https://github.com/index-tts/index-tts.git", dir]),
    }
}

#[test]
fn core_files_need_both_markers() {
    assert!(repo_has_core_files(true, true));
    assert!(!repo_has_core_files(true, false));
    assert!(!repo_has_core_files(false, true));
    assert!(!repo_has_core_files(false, false));
}

#[test]
fn missing_target_is_cloned() {
    let mut plan = plan("/srv/tts");
    assert_eq!(plan.phase(), ClonePhase::Start);
    assert_eq!(
        plan.next(Reply::Start),
        quiet(Request::Probe(vec![PathProbe {
            base: "/srv/tts".to_string(),
            child: None,
            must_be_dir: true,
        }]))
    );
    assert_eq!(plan.next(Reply::Probed(vec![false])), quiet(clone_request("/srv/tts")));
    assert_eq!(plan.phase(), ClonePhase::Cloning);
    assert_eq!(plan.next(Reply::Stepped(Ok(()))), quiet(Request::Done));
    assert_eq!(plan.phase(), ClonePhase::Done);
    assert_eq!(plan.into_outcome(), Some(Ok("SUCCESS".to_string())));
}

#[test]
fn failed_clone_reports_the_step_failure() {
    let mut plan = plan("/srv/tts");
    plan.next(Reply::Start);
    plan.next(Reply::Probed(vec![false]));
    let failure = Failure::StepFailed {
        step: "clone_repo".to_string(),
        stderr_excerpt: "fatal: unable to access".to_string(),
    };
    assert_eq!(plan.next(Reply::Stepped(Err(failure.clone()))), quiet(Request::Done));
    assert_eq!(plan.into_outcome(), Some(Err(failure)));
}

#[test]
fn complete_working_copy_is_accepted() {
    let mut plan = plan("repo");
    plan.next(Reply::Start);
    assert_eq!(
        plan.next(Reply::Probed(vec![true])),
        quiet(Request::Capture(git(&["-C", "repo", "rev-parse", "--is-inside-work-tree"])))
    );
    assert_eq!(plan.next(Reply::Captured(Ok(output(true)))), quiet(core_probes("repo")));
    let turn = plan.next(Reply::Probed(vec![true, true]));
    assert_eq!(
        turn,
        Turn {
            logs: vec![log(StreamSource::Stdout, "目标目录已存在，跳过克隆。")],
            request: Request::Done,
        }
    );
    assert_eq!(plan.into_outcome(), Some(Ok("SUCCESS".to_string())));
}

#[test]
fn work_tree_check_that_cannot_run_fails() {
    let mut plan = plan("repo");
    plan.next(Reply::Start);
    plan.next(Reply::Probed(vec![true]));
    plan.next(Reply::Captured(Err("No such file or directory".to_string())));
    assert_eq!(
        plan.into_outcome().unwrap().unwrap_err().message(),
        "Failed to check if repo is a git repo: No such file or directory"
    );
}

fn repaired_up_to_recheck(dir: &str) -> ClonePlan {
    let mut plan = plan(dir);
    plan.next(Reply::Start);
    plan.next(Reply::Probed(vec![true]));
    plan.next(Reply::Captured(Ok(output(true))));
    let turn = plan.next(Reply::Probed(vec![true, false]));
    assert_eq!(
        turn,
        Turn {
            logs: vec![log(StreamSource::Stderr, "检测到现有仓库缺少关键文件，尝试自动恢复...")],
            request: Request::Stream {
                step: "repair_repo_reset".to_string(),
                command: git(&["-C", dir, "reset", "--hard", "HEAD"]),
            },
        }
    );
    assert_eq!(plan.phase(), ClonePhase::RepairReset);
    assert_eq!(
        plan.next(Reply::Stepped(Ok(()))),
        quiet(Request::Stream {
            step: "repair_repo_clean".to_string(),
            command: git(&["-C", dir, "clean", "-fdx"]),
        })
    );
    assert_eq!(plan.next(Reply::Stepped(Ok(()))), quiet(core_probes(dir)));
    assert_eq!(plan.phase(), ClonePhase::RecheckingCoreFiles);
    plan
}

#[test]
fn incomplete_working_copy_is_repaired_once_then_given_up() {
    let mut plan = repaired_up_to_recheck("/data/index-tts");
    assert_eq!(plan.next(Reply::Probed(vec![true, false])), quiet(Request::Done));
    assert_eq!(plan.phase(), ClonePhase::Done);
    assert_eq!(plan.next(Reply::Probed(vec![true, false])), quiet(Request::Done));
    assert_eq!(plan.next(Reply::Start), quiet(Request::Done));
    let failure = plan.into_outcome().unwrap().unwrap_err();
    assert_eq!(
        failure.message(),
        "Repository at '/data/index-tts' is still missing required files after repair. Please remove the folder and deploy again."
    );
    assert!(matches!(failure, Failure::Rejected { .. }));
}

#[test]
fn repaired_working_copy_is_accepted() {
    let mut plan = repaired_up_to_recheck("r");
    assert_eq!(
        plan.next(Reply::Probed(vec![true, true])),
        Turn {
            logs: vec![log(StreamSource::Stdout, "仓库修复完成，跳过重新克隆。")],
            request: Request::Done,
        }
    );
    assert_eq!(plan.into_outcome(), Some(Ok("SUCCESS".to_string())));
}

#[test]
fn failed_repair_is_reported_and_logged() {
    for fail_at_clean in [false, true] {
        let mut plan = plan("r");
        plan.next(Reply::Start);
        plan.next(Reply::Probed(vec![true]));
        plan.next(Reply::Captured(Ok(output(true))));
        plan.next(Reply::Probed(vec![false, true]));
        if fail_at_clean {
            plan.next(Reply::Stepped(Ok(())));
        }
        let step = if fail_at_clean { "repair_repo_clean" } else { "repair_repo_reset" };
        let failure = Failure::StepFailed { step: step.to_string(), stderr_excerpt: "boom".to_string() };
        let turn = plan.next(Reply::Stepped(Err(failure)));
        assert_eq!(
            turn,
            Turn {
                logs: vec![log(StreamSource::Stderr, &format!("自动恢复失败: {} failed: boom", step))],
                request: Request::Done,
            }
        );
        assert_eq!(
            plan.into_outcome().unwrap().unwrap_err().message(),
            "Existing repository at 'r' is missing required files and could not be repaired. Please clean the directory and retry."
        );
    }
}

#[test]
fn empty_directory_is_removed_then_cloned() {
    let mut plan = plan("t");
    plan.next(Reply::Start);
    plan.next(Reply::Probed(vec![true]));
    assert_eq!(
        plan.next(Reply::Captured(Ok(output(false)))),
        quiet(Request::InspectEmpty { dir: "t".to_string() })
    );
    assert_eq!(
        plan.next(Reply::Emptiness(Ok(true))),
        Turn {
            logs: vec![log(StreamSource::Stdout, "检测到一个空目录，自动清理后继续克隆。")],
            request: Request::RemoveDir { dir: "t".to_string() },
        }
    );
    assert_eq!(plan.next(Reply::Removed(Ok(()))), quiet(clone_request("t")));
    plan.next(Reply::Stepped(Ok(())));
    assert_eq!(plan.into_outcome(), Some(Ok("SUCCESS".to_string())));
}

#[test]
fn empty_directory_is_kept_under_keep_policy() {
    let mut plan = clone_index_tts_repo("t".to_string(), Platform::Linux, EmptyDirPolicy::Keep);
    plan.next(Reply::Start);
    plan.next(Reply::Probed(vec![true]));
    plan.next(Reply::Captured(Ok(output(false))));
    assert_eq!(plan.next(Reply::Emptiness(Ok(true))), quiet(clone_request("t")));
}

#[test]
fn non_empty_foreign_directory_is_refused() {
    let mut plan = plan("t");
    plan.next(Reply::Start);
    plan.next(Reply::Probed(vec![true]));
    plan.next(Reply::Captured(Ok(output(false))));
    assert_eq!(plan.next(Reply::Emptiness(Ok(false))), quiet(Request::Done));
    assert_eq!(
        plan.into_outcome().unwrap().unwrap_err().message(),
        "Target directory 't' exists, is not a git repository, and contains files. Please choose an empty directory or clean it before retrying."
    );
}

#[test]
fn directory_that_cannot_be_inspected_or_removed_fails() {
    let mut plan1 = plan("t");
    plan1.next(Reply::Start);
    plan1.next(Reply::Probed(vec![true]));
    plan1.next(Reply::Captured(Ok(output(false))));
    plan1.next(Reply::Emptiness(Err("Permission denied (os error 13)".to_string())));
    assert_eq!(
        plan1.into_outcome().unwrap().unwrap_err().message(),
        "Failed to inspect directory 't': Permission denied (os error 13)"
    );
    let mut plan2 = plan("t");
    plan2.next(Reply::Start);
    plan2.next(Reply::Probed(vec![true]));
    plan2.next(Reply::Captured(Ok(output(false))));
    plan2.next(Reply::Emptiness(Ok(true)));
    plan2.next(Reply::Removed(Err("busy".to_string())));
    assert_eq!(
        plan2.into_outcome().unwrap().unwrap_err().message(),
        "Failed to reset empty target directory 't': busy"
    );
}

#[test]
fn reply_out_of_turn_ends_the_plan() {
    let mut plan1 = plan("t");
    assert_eq!(plan1.next(Reply::Slept), quiet(Request::Done));
    assert_eq!(plan1.into_outcome(), Some(Err(Failure::OutOfTurn)));
    let mut plan2 = plan("t");
    plan2.next(Reply::Start);
    assert_eq!(plan2.next(Reply::Probed(vec![true, true])), quiet(Request::Done));
    assert_eq!(plan2.into_outcome(), Some(Err(Failure::OutOfTurn)));
}

#[test]
fn unfinished_plan_has_no_outcome() {
    let mut plan = plan("t");
    plan.next(Reply::Start);
    assert_eq!(plan.into_outcome(), None);
}

#[test]
fn windows_commands_hide_the_console() {
    let mut plan = clone_index_tts_repo("t".to_string(), Platform::Windows, EmptyDirPolicy::Remove);
    plan.next(Reply::Start);
    match plan.next(Reply::Probed(vec![false])).request {
        Request::Stream { command, .. } => assert_eq!(command.creation_flags, Some(0x0800_0000)),
        other => panic!("unexpected request {:?}", other),
    }
}
