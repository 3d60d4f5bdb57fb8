use indextts_launcher::command::{CommandOutput, CommandSpec, Platform};
use indextts_launcher::plan::{Reply, Request};
use indextts_launcher::sequence::StepSequence;
use indextts_launcher::setup::{
    download_command, download_index_tts_model, init_git_lfs, install_hf_or_modelscope_tools,
    setup_index_tts_env, uses_mirror, ModelSource,
};

fn spec(program: &str, args: &[&str], dir: Option<&str>) -> CommandSpec {
    CommandSpec {
        program: program.to_string(),
        args: args.iter().map(|a| a.to_string()).collect(),
        current_dir: dir.map(|d| d.to_string()),
        envs: Vec::new(),
        creation_flags: None,
    }
}

fn run_all(mut plan: StepSequence) -> Vec<(String, CommandSpec)> {
    let mut seen = Vec::new();
    let mut reply = Reply::Start;
    loop {
        match plan.next(reply).request {
            Request::Stream { step, command } => seen.push((step, command)),
            Request::Done => break,
            other => panic!("unexpected request {:?}", other),
        }
        reply = Reply::Stepped(Ok(()));
    }
    assert_eq!(plan.into_outcome(), Some(Ok("SUCCESS".to_string())));
    seen
}

#[test]
fn lfs_is_installed_then_pulled() {
    let seen = run_all(init_git_lfs("/w", Platform::Linux));
    assert_eq!(
        seen,
        vec![
            ("init_lfs".to_string(), spec("git", &["-C", "/w", "lfs", "install"], None)),
            ("init_lfs".to_string(), spec("git", &["-C", "/w", "lfs", "pull"], None)),
        ]
    );
}

#[test]
fn mirror_is_used_only_in_mainland_china() {
    assert!(uses_mirror("mainland_china"));
    assert!(!uses_mirror("global"));
    assert!(!uses_mirror(""));
    assert!(!uses_mirror("Mainland_China"));
}

#[test]
fn environment_setup_without_mirror() {
    let seen = run_all(setup_index_tts_env("/w", "global", Platform::MacOs));
    assert_eq!(
        seen,
        vec![
            ("setup_env".to_string(), spec("uv", &["sync"], Some("/w"))),
            ("install_gradio".to_string(), spec("uv", &["pip", "install", "gradio"], Some("/w"))),
        ]
    );
}

#[test]
fn environment_setup_with_mirror() {
    let seen = run_all(setup_index_tts_env("/w", "mainland_china", Platform::MacOs));
    assert_eq!(
        seen,
        vec![
            (
                "setup_env".to_string(),
                spec(
                    "uv",
                    &["sync", "--default-index", "https://pypi.tuna.tsinghua.edu.cn/simple"],
                    Some("/w")
                )
            ),
            (
                "install_gradio".to_string(),
                spec(
                    "uv",
                    &["pip", "install", "gradio", "--index-url", "https://pypi.tuna.tsinghua.edu.cn/simple"],
                    Some("/w")
                )
            ),
        ]
    );
}

#[test]
fn model_comes_from_hugging_face_by_default() {
    let seen = run_all(download_index_tts_model("/w", "global", None, Platform::Linux));
    assert_eq!(
        seen,
        vec![(
            "download_model".to_string(),
            spec(
                "uv",
                &["run", "hf", "download", "IndexTeam/IndexTTS-2", "--local-dir", "checkpoints"],
                Some("/w")
            )
        )]
    );
}

#[test]
fn model_comes_from_modelscope_in_mainland_china() {
    let seen = run_all(download_index_tts_model(
        "/w",
        "mainland_china",
        Some("/models".to_string()),
        Platform::Linux,
    ));
    assert_eq!(
        seen,
        vec![(
            "download_model".to_string(),
            spec(
                "uv",
                &["run", "modelscope", "download", "--model", "IndexTeam/IndexTTS-2", "--local_dir", "/models"],
                Some("/w")
            )
        )]
    );
}

#[test]
fn hugging_face_mirror_sets_the_endpoint() {
    let command = download_command("/w", ModelSource::HuggingFace, true, "c", Platform::Windows);
    assert_eq!(command.envs, vec![("HF_ENDPOINT".to_string(), "https://hf-mirror.com".to_string())]);
    assert_eq!(command.creation_flags, Some(0x0800_0000));
    let command = download_command("/w", ModelSource::ModelScope, true, "c", Platform::Linux);
    assert!(command.envs.is_empty());
}

fn output(success: bool, stderr: &str) -> Reply {
    Reply::Captured(Ok(CommandOutput {
        success,
        status: String::new(),
        stdout: Vec::new(),
        stderr: stderr.as_bytes().to_vec(),
    }))
}

#[test]
fn download_tool_installation() {
    let mut plan = install_hf_or_modelscope_tools("/w", "modelscope", Platform::Linux);
    assert_eq!(
        plan.next(Reply::Start).request,
        Request::Capture(spec("uv", &["tool", "install", "modelscope"], Some("/w")))
    );
    assert_eq!(plan.next(output(true, "")).request, Request::Done);
    assert_eq!(
        plan.into_outcome(),
        Some(Ok("modelscope installed successfully using uv tool.".to_string()))
    );
}

#[test]
fn download_tool_installation_failures() {
    let mut plan = install_hf_or_modelscope_tools("/w", "hf", Platform::Linux);
    plan.next(Reply::Start);
    plan.next(output(false, "error: no such package\n"));
    assert_eq!(
        plan.into_outcome().unwrap().unwrap_err().message(),
        "uv tool install for hf failed: error: no such package\n"
    );
    let mut plan = install_hf_or_modelscope_tools("/w", "hf", Platform::Linux);
    plan.next(Reply::Start);
    plan.next(Reply::Captured(Err("not found".to_string())));
    assert_eq!(
        plan.into_outcome().unwrap().unwrap_err().message(),
        "Failed to execute uv tool install for hf: not found"
    );
}
