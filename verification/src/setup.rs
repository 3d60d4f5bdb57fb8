//! Preparing a working copy for use: large-file support, the Python
//! environment, the download tools and the model itself.

use vstd::prelude::*;
use vstd::string::StringExecFns;
use crate::capture::{CapturePlan, CapturePlanView, CaptureTask, CaptureTaskView};
use crate::command::{new_command, CommandSpec, CommandSpecView, Platform};
use crate::sequence::{step_views, Step, StepSequence, StepSequenceView, StepView};

verus! {

/// Where the model is downloaded from.
#[derive(Clone, Copy, Debug, PartialEq, Eq, Structural)]
pub enum ModelSource {
    HuggingFace,
    ModelScope,
}

/// The package index used from mainland China.
pub open spec fn mirror_index() -> Seq<char> {
    "https://pypi.tuna.tsinghua.edu.cn/simple"@
}

/// Whether the network environment is the one that needs mirrors.
pub open spec fn spec_uses_mirror(network_environment: Seq<char>) -> bool {
    network_environment == "mainland_china"@
}

/// Whether the network environment is the one that needs mirrors.
pub fn uses_mirror(network_environment: &str) -> (mirror: bool)
    ensures
        mirror == spec_uses_mirror(network_environment@),
{
    String::from_str(network_environment) == String::from_str("mainland_china")
}

/// The two steps that set up large-file support in a working copy.
pub open spec fn spec_lfs_steps(target_dir: Seq<char>, platform: Platform) -> Seq<StepView> {
    let git = CommandSpecView::new("git"@).configured(platform).arg("-C"@).arg(target_dir);
    seq![
        StepView { name: "init_lfs"@, command: git.arg("lfs"@).arg("install"@) },
        StepView { name: "init_lfs"@, command: git.arg("lfs"@).arg("pull"@) },
    ]
}

/// Plans the setup of large-file support in `target_dir`: install the
/// hooks, then pull the large files.
pub fn init_git_lfs(target_dir: &str, platform: Platform) -> (plan: StepSequence)
    ensures
        plan@ == StepSequenceView::start(spec_lfs_steps(target_dir@, platform)),
{
    let mut steps: Vec<Step> = Vec::new();
    steps.push(
        Step::new(
            "init_lfs",
            new_command("git", platform).arg("-C").arg(target_dir).arg("lfs").arg("install"),
        ),
    );
    steps.push(
        Step::new(
            "init_lfs",
            new_command("git", platform).arg("-C").arg(target_dir).arg("lfs").arg("pull"),
        ),
    );
    assert(step_views(steps@) =~= spec_lfs_steps(target_dir@, platform));
    StepSequence::new(steps)
}

/// The two steps that set up the Python environment: synchronise it, then
/// install the web interface's toolkit, both from the mirror where the
/// network environment asks for it.
pub open spec fn spec_env_steps(
    target_dir: Seq<char>,
    network_environment: Seq<char>,
    platform: Platform,
) -> Seq<StepView> {
    let uv = CommandSpecView::new("uv"@).configured(platform);
    let sync = uv.arg("sync"@).current_dir(target_dir);
    let gradio = uv.arg("pip"@).arg("install"@).arg("gradio"@).current_dir(target_dir);
    if spec_uses_mirror(network_environment) {
        seq![
            StepView {
                name: "setup_env"@,
                command: sync.arg("--default-index"@).arg(mirror_index()),
            },
            StepView {
                name: "install_gradio"@,
                command: gradio.arg("--index-url"@).arg(mirror_index()),
            },
        ]
    } else {
        seq![
            StepView { name: "setup_env"@, command: sync },
            StepView { name: "install_gradio"@, command: gradio },
        ]
    }
}

/// Plans the setup of the Python environment in `target_dir`.
pub fn setup_index_tts_env(target_dir: &str, network_environment: &str, platform: Platform) -> (plan:
    StepSequence)
    ensures
        plan@ == StepSequenceView::start(
            spec_env_steps(target_dir@, network_environment@, platform),
        ),
{
    let mirror = uses_mirror(network_environment);
    let mut sync = new_command("uv", platform).arg("sync").current_dir(target_dir);
    let mut gradio = new_command("uv", platform).arg("pip").arg("install").arg(
        "gradio",
    ).current_dir(target_dir);
    if mirror {
        sync = sync.arg("--default-index").arg("https://pypi.tuna.tsinghua.edu.cn/simple");
        gradio = gradio.arg("--index-url").arg("https://pypi.tuna.tsinghua.edu.cn/simple");
    }
    let mut steps: Vec<Step> = Vec::new();
    steps.push(Step::new("setup_env", sync));
    steps.push(Step::new("install_gradio", gradio));
    assert(step_views(steps@) =~= spec_env_steps(target_dir@, network_environment@, platform));
    StepSequence::new(steps)
}

/// The source that goes with a network environment.
pub open spec fn spec_model_source(network_environment: Seq<char>) -> ModelSource {
    if spec_uses_mirror(network_environment) {
        ModelSource::ModelScope
    } else {
        ModelSource::HuggingFace
    }
}

/// The directory that the model goes to where none was chosen.
pub open spec fn default_model_dir() -> Seq<char> {
    "checkpoints"@
}

/// The command that downloads the model from `source` into `local_dir`.
/// From Hugging Face it goes through the mirror endpoint where `mirror` is
/// set.
pub open spec fn spec_download_command(
    target_dir: Seq<char>,
    source: ModelSource,
    mirror: bool,
    local_dir: Seq<char>,
    platform: Platform,
) -> CommandSpecView {
    let uv = CommandSpecView::new("uv"@).configured(platform).current_dir(target_dir);
    match source {
        ModelSource::HuggingFace => {
            let download = uv.arg("run"@).arg("hf"@).arg("download"@).arg(
                "IndexTeam/IndexTTS-2"@,
            ).arg("--local-dir"@).arg(local_dir);
            if mirror {
                download.env("HF_ENDPOINT"@, "https://hf-mirror.com"@)
            } else {
                download
            }
        },
        ModelSource::ModelScope => uv.arg("run"@).arg("modelscope"@).arg("download"@).arg(
            "--model"@,
        ).arg("IndexTeam/IndexTTS-2"@).arg("--local_dir"@).arg(local_dir),
    }
}

/// The command that downloads the model from `source` into `local_dir`.
pub fn download_command(
    target_dir: &str,
    source: ModelSource,
    mirror: bool,
    local_dir: &str,
    platform: Platform,
) -> (command: CommandSpec)
    ensures
        command@ == spec_download_command(target_dir@, source, mirror, local_dir@, platform),
{
    let uv = new_command("uv", platform).current_dir(target_dir);
    match source {
        ModelSource::HuggingFace => {
            let download = uv.arg("run").arg("hf").arg("download").arg(
                "IndexTeam/IndexTTS-2",
            ).arg("--local-dir").arg(local_dir);
            if mirror {
                download.env("HF_ENDPOINT", "https://hf-mirror.com")
            } else {
                download
            }
        },
        ModelSource::ModelScope => uv.arg("run").arg("modelscope").arg("download").arg(
            "--model",
        ).arg("IndexTeam/IndexTTS-2").arg("--local_dir").arg(local_dir),
    }
}

/// The one step that downloads the model: from the source that goes with
/// the network environment, into the chosen directory or the default one.
pub open spec fn spec_download_steps(
    target_dir: Seq<char>,
    network_environment: Seq<char>,
    model_save_path: Option<Seq<char>>,
    platform: Platform,
) -> Seq<StepView> {
    let local_dir = match model_save_path {
        Some(path) => path,
        None => default_model_dir(),
    };
    seq![
        StepView {
            name: "download_model"@,
            command: spec_download_command(
                target_dir,
                spec_model_source(network_environment),
                spec_uses_mirror(network_environment),
                local_dir,
                platform,
            ),
        },
    ]
}

/// Plans the download of the model.
pub fn download_index_tts_model(
    target_dir: &str,
    network_environment: &str,
    model_save_path: Option<String>,
    platform: Platform,
) -> (plan: StepSequence)
    ensures
        plan@ == StepSequenceView::start(
            spec_download_steps(
                target_dir@,
                network_environment@,
                match model_save_path {
                    Some(path) => Some(path@),
                    None => None,
                },
                platform,
            ),
        ),
{
    let mirror = uses_mirror(network_environment);
    let source = if mirror {
        ModelSource::ModelScope
    } else {
        ModelSource::HuggingFace
    };
    let local_dir = match model_save_path {
        Some(path) => path,
        None => String::from_str("checkpoints"),
    };
    let command = download_command(target_dir, source, mirror, local_dir.as_str(), platform);
    let mut steps: Vec<Step> = Vec::new();
    steps.push(Step::new("download_model", command));
    assert(step_views(steps@) =~= spec_download_steps(
        target_dir@,
        network_environment@,
        match model_save_path {
            Some(path) => Some(path@),
            None => None,
        },
        platform,
    ));
    StepSequence::new(steps)
}

/// The task that installs a download tool with the package manager, inside
/// the working copy.
pub open spec fn spec_tool_install_task(
    repo_dir: Seq<char>,
    tool_name: Seq<char>,
    platform: Platform,
) -> CaptureTaskView {
    CaptureTaskView {
        guard: None,
        command: CommandSpecView::new("uv"@).configured(platform).arg("tool"@).arg("install"@).arg(
            tool_name,
        ).current_dir(repo_dir),
        spawn_context: "Failed to execute uv tool install for "@ + tool_name,
        failure_context: "uv tool install for "@ + tool_name + " failed"@,
        success: tool_name + " installed successfully using uv tool."@,
    }
}

/// Plans the installation of a download tool in the working copy.
pub fn install_hf_or_modelscope_tools(repo_dir: &str, tool_name: &str, platform: Platform) -> (plan:
    CapturePlan)
    ensures
        plan@ == CapturePlanView::start(spec_tool_install_task(repo_dir@, tool_name@, platform)),
{
    let mut spawn_context = String::from_str("Failed to execute uv tool install for ");
    spawn_context.append(tool_name);
    let mut failure_context = String::from_str("uv tool install for ");
    failure_context.append(tool_name);
    failure_context.append(" failed");
    let mut success = String::from_str(tool_name);
    success.append(" installed successfully using uv tool.");
    CapturePlan::new(
        CaptureTask {
            guard: None,
            command: new_command("uv", platform).arg("tool").arg("install").arg(
                tool_name,
            ).current_dir(repo_dir),
            spawn_context,
            failure_context,
            success,
        },
    )
}

} // verus!
