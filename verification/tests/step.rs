use indextts_launcher::failure::Failure;
use indextts_launcher::step::{conclude_step, spawn_failure, stderr_excerpt, step_forwarders};
use indextts_launcher::stream::StreamSource;

#[test]
fn successful_step_is_ok() {
    let lines = vec!["warning: something".to_string()];
    assert_eq!(conclude_step("clone_repo", Ok(true), Some(&lines)), Ok(()));
    assert_eq!(conclude_step("clone_repo", Ok(true), None), Ok(()));
}

#[test]
fn failed_step_carries_every_stderr_line_in_order() {
    let lines = vec![
        "fatal: repository not found".to_string(),
        "hint: check the address".to_string(),
        "exit".to_string(),
    ];
    let failure = conclude_step("clone_repo", Ok(false), Some(&lines)).unwrap_err();
    assert_eq!(
        failure,
        Failure::StepFailed {
            step: "clone_repo".to_string(),
            stderr_excerpt: "fatal: repository not found\nhint: check the address\nexit".to_string(),
        }
    );
    let message = failure.message();
    assert_eq!(
        message,
        "clone_repo failed: fatal: repository not found\nhint: check the address\nexit"
    );
    let mut from = 0;
    for line in &lines {
        let at = message[from..].find(line.as_str()).expect("line in message") + from;
        from = at + line.len();
    }
}

#[test]
fn failed_step_without_stderr_has_placeholder() {
    let none: Vec<String> = Vec::new();
    let failure = conclude_step("setup_env", Ok(false), Some(&none)).unwrap_err();
    assert_eq!(failure.message(), "setup_env failed: command failed");
    let failure = conclude_step("setup_env", Ok(false), None).unwrap_err();
    assert_eq!(failure.message(), "setup_env failed: command failed");
}

#[test]
fn excerpt_joins_with_newlines() {
    let one = vec!["only".to_string()];
    assert_eq!(stderr_excerpt(Some(&one)), "only");
    let two = vec!["a".to_string(), "b".to_string()];
    assert_eq!(stderr_excerpt(Some(&two)), "a\nb");
    assert_eq!(stderr_excerpt(None), "command failed");
}

#[test]
fn wait_failure_names_the_step() {
    let failure = conclude_step("download_model", Err("interrupted".to_string()), None).unwrap_err();
    assert_eq!(
        failure,
        Failure::Io {
            context: "Failed to wait for download_model".to_string(),
            detail: "interrupted".to_string(),
        }
    );
    assert_eq!(failure.message(), "Failed to wait for download_model: interrupted");
}

#[test]
fn spawn_failure_names_the_step() {
    let failure = spawn_failure("clone_repo", "No such file or directory (os error 2)");
    assert_eq!(
        failure.message(),
        "Failed to spawn clone_repo: No such file or directory (os error 2)"
    );
    assert!(matches!(failure, Failure::Spawn { .. }));
}

#[test]
fn step_runner_streams_and_reports() {
    let (mut stdout, mut stderr) = step_forwarders("init_lfs");
    let shown = stdout.push_chunk(b"Updated git hooks.\n");
    assert_eq!(shown.len(), 1);
    assert_eq!(shown[0].step.as_deref(), Some("init_lfs"));
    assert_eq!(shown[0].stream, StreamSource::Stdout);
    let mut errors = stderr.push_chunk(b"error: one\r\nerror: ");
    errors.extend(stderr.push_chunk(b"two\n"));
    errors.extend(stderr.finish());
    assert_eq!(errors.len(), 2);
    assert_eq!(errors[1].text, "error: two");
    assert_eq!(errors[1].stream, StreamSource::Stderr);
    assert_eq!(stdout.retained(), None);
    let result = conclude_step("init_lfs", Ok(false), stderr.retained());
    assert_eq!(result.unwrap_err().message(), "init_lfs failed: error: one\nerror: two");
}
