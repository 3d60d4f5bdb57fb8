use indextts_launcher::command::{CommandOutput, CommandSpec};
use indextts_launcher::failure::Failure;
use indextts_launcher::plan::{PathProbe, Reply, Request};
use indextts_launcher::repo::{
    check_index_tts_repo, check_repo_update, compare_hashes, pull_repo, RepoUpdateInfo,
};

fn git(args: &[&str]) -> Request {
    Request::Capture(CommandSpec {
        program: "git".to_string(),
        args: args.iter().map(|a| a.to_string()).collect(),
        current_dir: None,
        envs: Vec::new(),
        creation_flags: None,
    })
}

fn printed(success: bool, stdout: &str, stderr: &str) -> Reply {
    Reply::Captured(Ok(CommandOutput {
        success,
        status: String::new(),
        stdout: stdout.as_bytes().to_vec(),
        stderr: stderr.as_bytes().to_vec(),
    }))
}

fn dir_probe(dir: &str) -> Request {
    Request::Probe(vec![PathProbe { base: dir.to_string(), child: None, must_be_dir: true }])
}

#[test]
fn absent_or_blank_path_is_no_working_copy() {
    for given in [None, Some(String::new()), Some("  \t ".to_string())] {
        let mut plan = check_index_tts_repo(given);
        assert_eq!(plan.next(Reply::Start).request, Request::Done);
        assert_eq!(plan.into_outcome(), Some(Ok(false)));
    }
}

#[test]
fn working_copy_needs_directory_and_git_directory() {
    for (flags, expected) in [
        (vec![true, true], true),
        (vec![true, false], false),
        (vec![false, true], false),
        (vec![false, false], false),
    ] {
        let mut plan = check_index_tts_repo(Some("  /srv/repo \n".to_string()));
        assert_eq!(
            plan.next(Reply::Start).request,
            Request::Probe(vec![
                PathProbe { base: "/srv/repo".to_string(), child: None, must_be_dir: true },
                PathProbe {
                    base: "/srv/repo".to_string(),
                    child: Some(".git".to_string()),
                    must_be_dir: true,
                },
            ])
        );
        assert_eq!(plan.next(Reply::Probed(flags)).request, Request::Done);
        assert_eq!(plan.into_outcome(), Some(Ok(expected)));
    }
}

#[test]
fn repo_check_out_of_turn() {
    let mut plan = check_index_tts_repo(Some("x".to_string()));
    plan.next(Reply::Start);
    plan.next(Reply::Probed(vec![true]));
    assert_eq!(plan.into_outcome(), Some(Err(Failure::OutOfTurn)));
}

#[test]
fn hashes_that_differ_mean_an_update() {
    assert_eq!(
        compare_hashes("abc".to_string(), "def".to_string()),
        RepoUpdateInfo {
            has_update: true,
            local_hash: "abc".to_string(),
            remote_hash: "def".to_string(),
            message: "New version available.".to_string(),
        }
    );
    assert_eq!(
        compare_hashes("abc".to_string(), "abc".to_string()),
        RepoUpdateInfo {
            has_update: false,
            local_hash: "abc".to_string(),
            remote_hash: "abc".to_string(),
            message: "Already up to date.".to_string(),
        }
    );
}

#[test]
fn update_check_reads_both_heads() {
    let mut plan = check_repo_update("/r".to_string());
    assert_eq!(plan.next(Reply::Start).request, dir_probe("/r"));
    assert_eq!(plan.next(Reply::Probed(vec![true])).request, git(&["-C", "/r", "fetch"]));
    assert_eq!(
        plan.next(printed(true, "", "")).request,
        git(&["-C", "/r", "log", "-n", "1", "--pretty=format:%H"])
    );
    assert_eq!(
        plan.next(printed(true, "1111\n", "")).request,
        git(&["-C", "/r", "log", "-n", "1", "--pretty=format:%H", "origin/main"])
    );
    assert_eq!(plan.next(printed(true, " 2222 ", "")).request, Request::Done);
    assert_eq!(
        plan.into_outcome(),
        Some(Ok(RepoUpdateInfo {
            has_update: true,
            local_hash: "1111".to_string(),
            remote_hash: "2222".to_string(),
            message: "New version available.".to_string(),
        }))
    );
}

#[test]
fn update_check_up_to_date() {
    let mut plan = check_repo_update("/r".to_string());
    plan.next(Reply::Start);
    plan.next(Reply::Probed(vec![true]));
    plan.next(printed(true, "", ""));
    plan.next(printed(true, "same", ""));
    plan.next(printed(true, "same\n", ""));
    let info = plan.into_outcome().unwrap().unwrap();
    assert!(!info.has_update);
    assert_eq!(info.message, "Already up to date.");
}

#[test]
fn update_check_failures() {
    let mut plan = check_repo_update("/r".to_string());
    plan.next(Reply::Start);
    plan.next(Reply::Probed(vec![false]));
    assert_eq!(
        plan.into_outcome().unwrap().unwrap_err().message(),
        "Repository directory does not exist."
    );

    let mut plan = check_repo_update("/r".to_string());
    plan.next(Reply::Start);
    plan.next(Reply::Probed(vec![true]));
    plan.next(printed(false, "", "fatal: no remote"));
    assert_eq!(plan.into_outcome().unwrap().unwrap_err().message(), "Git fetch failed: fatal: no remote");

    let mut plan = check_repo_update("/r".to_string());
    plan.next(Reply::Start);
    plan.next(Reply::Probed(vec![true]));
    plan.next(Reply::Captured(Err("gone".to_string())));
    assert_eq!(plan.into_outcome().unwrap().unwrap_err().message(), "Failed to execute git fetch: gone");

    let mut plan = check_repo_update("/r".to_string());
    plan.next(Reply::Start);
    plan.next(Reply::Probed(vec![true]));
    plan.next(printed(true, "", ""));
    plan.next(printed(false, "", "bad"));
    assert_eq!(plan.into_outcome().unwrap().unwrap_err().message(), "Failed to get local hash: bad");

    let mut plan = check_repo_update("/r".to_string());
    plan.next(Reply::Start);
    plan.next(Reply::Probed(vec![true]));
    plan.next(printed(true, "", ""));
    plan.next(printed(true, "1", ""));
    plan.next(printed(false, "", "unknown revision"));
    assert_eq!(
        plan.into_outcome().unwrap().unwrap_err().message(),
        "Failed to get remote hash: unknown revision"
    );
}

#[test]
fn pull_needs_the_directory() {
    let mut plan = pull_repo("/r");
    assert_eq!(plan.next(Reply::Start).request, dir_probe("/r"));
    assert_eq!(plan.next(Reply::Probed(vec![false])).request, Request::Done);
    assert_eq!(
        plan.into_outcome(),
        Some(Err(Failure::Rejected { message: "Repository directory does not exist.".to_string() }))
    );
}

#[test]
fn pull_runs_and_reports() {
    let mut plan = pull_repo("/r");
    plan.next(Reply::Start);
    assert_eq!(plan.next(Reply::Probed(vec![true])).request, git(&["-C", "/r", "pull"]));
    assert_eq!(plan.next(printed(true, "Already up to date.\n", "")).request, Request::Done);
    assert_eq!(plan.into_outcome(), Some(Ok("SUCCESS".to_string())));

    let mut plan = pull_repo("/r");
    plan.next(Reply::Start);
    plan.next(Reply::Probed(vec![true]));
    plan.next(printed(false, "", "error: local changes"));
    assert_eq!(
        plan.into_outcome().unwrap().unwrap_err().message(),
        "Git pull failed: error: local changes"
    );

    let mut plan = pull_repo("/r");
    plan.next(Reply::Start);
    plan.next(Reply::Probed(vec![true]));
    plan.next(Reply::Captured(Err("no git".to_string())));
    assert_eq!(
        plan.into_outcome().unwrap().unwrap_err().message(),
        "Failed to execute git pull: no git"
    );
}
