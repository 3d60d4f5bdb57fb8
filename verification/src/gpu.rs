//! What the graphics processor reports: reading the output of the check
//! script and of the vendor's query tool. Numbers are handed on as the text
//! that was printed; turning them into quantities is left to the caller.

use vstd::prelude::*;
use vstd::string::StringExecFns;
use crate::command::{
    new_command,
    ran_view,
    CommandOutput,
    CommandOutputView,
    CommandSpec,
    CommandSpecView,
    Platform,
};
use crate::failure::{Failure, FailureView};
use crate::plan::{Reply, ReplyView, Request, RequestView, Turn, TurnView};
use crate::text::{
    contains,
    contains_text,
    decode_lossy,
    first_word,
    first_word_of,
    lossy_text,
    option_text,
    split,
    split_on,
    texts,
    trim,
    trimmed,
};

verus! {

/// The first of `lines` that holds `needle`.
pub open spec fn first_line_with(lines: Seq<Seq<char>>, needle: Seq<char>) -> Option<Seq<char>>
    decreases lines.len(),
{
    if lines.len() == 0 {
        None
    } else if contains_text(lines.first(), needle) {
        Some(lines.first())
    } else {
        first_line_with(lines.drop_first(), needle)
    }
}

/// What stands between the first and the second `mark` of `line`, or after
/// the first where there is no second.
pub open spec fn second_field(line: Seq<char>, mark: char) -> Option<Seq<char>> {
    let fields = split_on(line, mark);
    if fields.len() >= 2 {
        Some(fields[1])
    } else {
        None
    }
}

/// The second field of the first line that holds `label`.
pub open spec fn labelled_field(text: Seq<char>, label: Seq<char>) -> Option<Seq<char>> {
    match first_line_with(split_on(text, '\n'), label) {
        Some(line) => second_field(line, ':'),
        None => None,
    }
}

/// What the check script reported.
#[derive(Clone, Debug, PartialEq, Eq)]
pub struct GpuReport {
    pub has_cuda: bool,
    pub name: Option<String>,
    /// The amount of video memory as printed, in gigabytes.
    pub vram_text: Option<String>,
}

pub struct GpuReportView {
    pub has_cuda: bool,
    pub name: Option<Seq<char>>,
    pub vram_text: Option<Seq<char>>,
}

impl View for GpuReport {
    type V = GpuReportView;

    open spec fn view(&self) -> GpuReportView {
        GpuReportView {
            has_cuda: self.has_cuda,
            name: option_text(self.name),
            vram_text: option_text(self.vram_text),
        }
    }
}

/// What the output of the check script says: whether CUDA is available;
/// the name, which is the trimmed second field of the first line that
/// holds `GPU:`; and the amount of memory, which is the first word of the
/// second field of the first line that holds `VRAM:`.
pub open spec fn spec_gpu_report(stdout: Seq<char>) -> GpuReportView {
    GpuReportView {
        has_cuda: contains_text(stdout, "torch.cuda.is_available(): True"@),
        name: match labelled_field(stdout, "GPU:"@) {
            Some(field) => Some(trimmed(field)),
            None => None,
        },
        vram_text: match labelled_field(stdout, "VRAM:"@) {
            Some(field) => first_word_of(field),
            None => None,
        },
    }
}

/// The second field of the first line of `text` that holds `label`.
fn find_labelled_field(lines: &Vec<String>, label: &str, Ghost(text): Ghost<Seq<char>>) -> (field:
    Option<String>)
    requires
        texts(lines@) == split_on(text, '\n'),
    ensures
        option_text(field) == labelled_field(text, label@),
{
    let mut i: usize = 0;
    proof {
        assert(texts(lines@).skip(0) == texts(lines@));
    }
    while i < lines.len()
        invariant
            i <= lines.len(),
            texts(lines@) == split_on(text, '\n'),
            first_line_with(texts(lines@).skip(i as int), label@) == first_line_with(
                texts(lines@),
                label@,
            ),
        decreases lines.len() - i,
    {
        let ghost rest = texts(lines@).skip(i as int);
        proof {
            assert(rest.first() == lines@[i as int]@);
            assert(rest.drop_first() == texts(lines@).skip(i + 1));
        }
        if contains(lines[i].as_str(), label) {
            let fields = split(lines[i].as_str(), ':');
            proof {
                assert(texts(fields@).len() == fields@.len());
                assert(first_line_with(rest, label@) == Some(lines@[i as int]@));
            }
            if fields.len() >= 2 {
                let field = fields[1].clone();
                assert(texts(fields@)[1] == fields@[1]@);
                return Some(field);
            } else {
                return None;
            }
        }
        i = i + 1;
    }
    None
}

/// Reads the output of the check script.
pub fn gpu_report(stdout: &str) -> (report: GpuReport)
    ensures
        report@ == spec_gpu_report(stdout@),
{
    let lines = split(stdout, '\n');
    let has_cuda = contains(stdout, "torch.cuda.is_available(): True");
    let name = match find_labelled_field(&lines, "GPU:", Ghost(stdout@)) {
        Some(field) => Some(trim(field.as_str())),
        None => None,
    };
    let vram_text = match find_labelled_field(&lines, "VRAM:", Ghost(stdout@)) {
        Some(field) => first_word(field.as_str()),
        None => None,
    };
    GpuReport { has_cuda, name, vram_text }
}

/// The name and the amount of memory that the vendor's query tool printed
/// for the first processor: the first two fields of the first line, each
/// trimmed; `None` where the line has fewer than two fields.
pub open spec fn spec_query_fields(stdout: Seq<char>) -> Option<(Seq<char>, Seq<char>)> {
    let fields = split_on(split_on(stdout, '\n')[0], ',');
    if fields.len() >= 2 {
        Some((trimmed(fields[0]), trimmed(fields[1])))
    } else {
        None
    }
}

/// Reads the first line of the output of the vendor's query tool.
pub fn query_fields(stdout: &str) -> (fields: Option<(String, String)>)
    ensures
        match fields {
            Some(pair) => spec_query_fields(stdout@) == Some((pair.0@, pair.1@)),
            None => spec_query_fields(stdout@) is None,
        },
{
    let lines = split(stdout, '\n');
    proof {
        crate::text::lemma_split_nonempty(stdout@, '\n');
    }
    let fields = split(lines[0].as_str(), ',');
    if fields.len() >= 2 {
        Some((trim(fields[0].as_str()), trim(fields[1].as_str())))
    } else {
        None
    }
}

/// The command that asks the vendor's query tool for name, memory and
/// driver of each processor.
pub open spec fn spec_gpu_query_command() -> CommandSpecView {
    CommandSpecView::new("nvidia-smi"@).arg("--query-gpu=name,memory.total,driver_version"@).arg(
        "--format=csv,noheader"@,
    )
}

/// The command that asks the vendor's query tool.
pub fn gpu_query_command() -> (command: CommandSpec)
    ensures
        command@ == spec_gpu_query_command(),
{
    CommandSpec::new("nvidia-smi").arg("--query-gpu=name,memory.total,driver_version").arg(
        "--format=csv,noheader",
    )
}

/// What a run of the query tool says of the first processor: nothing where
/// the tool could not be run or reported failure, else the fields of what
/// it printed.
pub open spec fn spec_read_gpu_query(ran: Result<CommandOutputView, Seq<char>>) -> Option<
    (Seq<char>, Seq<char>),
> {
    match ran {
        Ok(output) => if output.success {
            spec_query_fields(lossy_text(output.stdout))
        } else {
            None
        },
        Err(_) => None,
    }
}

/// Reads a run of the vendor's query tool.
pub fn read_gpu_query(ran: &Result<CommandOutput, String>) -> (fields: Option<(String, String)>)
    ensures
        match fields {
            Some(pair) => spec_read_gpu_query(ran_view(*ran)) == Some((pair.0@, pair.1@)),
            None => spec_read_gpu_query(ran_view(*ran)) is None,
        },
{
    match ran {
        Ok(output) => {
            if output.success {
                let printed = decode_lossy(output.stdout.as_slice());
                query_fields(printed.as_str())
            } else {
                None
            }
        },
        Err(_) => None,
    }
}

/// The command that runs the check script in the working copy.
pub open spec fn spec_gpu_check_command(repo_dir: Seq<char>, platform: Platform) -> CommandSpecView {
    CommandSpecView::new("uv"@).configured(platform).arg("run"@).arg(
        "tools/gpu_check.py"@,
    ).current_dir(repo_dir)
}

/// Where a check of the graphics processor stands.
#[derive(Clone, Copy, Debug, PartialEq, Eq, Structural)]
pub enum GpuCheckPhase {
    Start,
    Running,
    Done,
}

/// A check of the graphics processor as a value.
pub struct GpuCheckView {
    pub repo_dir: Seq<char>,
    pub platform: Platform,
    pub phase: GpuCheckPhase,
    pub outcome: Option<Result<GpuReportView, FailureView>>,
}

impl GpuCheckView {
    pub open spec fn start(repo_dir: Seq<char>, platform: Platform) -> GpuCheckView {
        GpuCheckView { repo_dir, platform, phase: GpuCheckPhase::Start, outcome: None }
    }

    pub open spec fn ends(self, outcome: Result<GpuReportView, FailureView>) -> (
        GpuCheckView,
        TurnView,
    ) {
        (
            GpuCheckView { phase: GpuCheckPhase::Done, outcome: Some(outcome), ..self },
            TurnView::quiet(RequestView::Done),
        )
    }

    /// What the script's run amounts to: the reason why it could not be
    /// run; what it printed on both streams where it reported failure; else
    /// what its output says.
    pub open spec fn verdict(ran: Result<CommandOutputView, Seq<char>>) -> Result<
        GpuReportView,
        FailureView,
    > {
        match ran {
            Err(detail) => Err(
                FailureView::Spawn {
                    context: "Failed to execute uv run tools/gpu_check.py"@,
                    detail,
                },
            ),
            Ok(output) => if output.success {
                Ok(spec_gpu_report(lossy_text(output.stdout)))
            } else {
                Err(
                    FailureView::CommandFailed {
                        context: "GPU check script failed"@,
                        output: lossy_text(output.stdout) + " "@ + lossy_text(output.stderr),
                    },
                )
            },
        }
    }

    /// The check's next state and move on `reply`.
    pub open spec fn next(self, reply: ReplyView) -> (GpuCheckView, TurnView) {
        let out_of_turn = self.ends(Err(FailureView::OutOfTurn));
        match self.phase {
            GpuCheckPhase::Start => match reply {
                ReplyView::Start => (
                    GpuCheckView { phase: GpuCheckPhase::Running, ..self },
                    TurnView::quiet(
                        RequestView::Capture(spec_gpu_check_command(self.repo_dir, self.platform)),
                    ),
                ),
                _ => out_of_turn,
            },
            GpuCheckPhase::Running => match reply {
                ReplyView::Captured(ran) => self.ends(Self::verdict(ran)),
                _ => out_of_turn,
            },
            GpuCheckPhase::Done => (self, TurnView::quiet(RequestView::Done)),
        }
    }
}

pub open spec fn gpu_outcome_view(outcome: Option<Result<GpuReport, Failure>>) -> Option<
    Result<GpuReportView, FailureView>,
> {
    match outcome {
        Some(Ok(report)) => Some(Ok(report@)),
        Some(Err(failure)) => Some(Err(failure@)),
        None => None,
    }
}

/// The plan that runs the check script and reads what it printed.
pub struct GpuCheck {
    repo_dir: String,
    platform: Platform,
    phase: GpuCheckPhase,
    outcome: Option<Result<GpuReport, Failure>>,
}

impl View for GpuCheck {
    type V = GpuCheckView;

    closed spec fn view(&self) -> GpuCheckView {
        GpuCheckView {
            repo_dir: self.repo_dir@,
            platform: self.platform,
            phase: self.phase,
            outcome: gpu_outcome_view(self.outcome),
        }
    }
}

/// Plans the check of the graphics processor from inside the working copy.
pub fn run_gpu_check(repo_dir: String, platform: Platform) -> (plan: GpuCheck)
    ensures
        plan@ == GpuCheckView::start(repo_dir@, platform),
{
    GpuCheck { repo_dir, platform, phase: GpuCheckPhase::Start, outcome: None }
}

impl GpuCheck {
    fn ends(&mut self, outcome: Result<GpuReport, Failure>) -> (made: Turn)
        ensures
            (final(self)@, made@) == old(self)@.ends(
                match outcome {
                    Ok(report) => Ok(report@),
                    Err(failure) => Err(failure@),
                },
            ),
    {
        self.phase = GpuCheckPhase::Done;
        self.outcome = Some(outcome);
        Turn::quiet(Request::Done)
    }

    /// Takes the driver's reply and makes the plan's next move.
    pub fn next(&mut self, reply: Reply) -> (turn: Turn)
        ensures
            (final(self)@, turn@) == old(self)@.next(reply@),
    {
        match self.phase {
            GpuCheckPhase::Start => match reply {
                Reply::Start => {
                    let command = new_command("uv", self.platform).arg("run").arg(
                        "tools/gpu_check.py",
                    ).current_dir(self.repo_dir.as_str());
                    self.phase = GpuCheckPhase::Running;
                    Turn::quiet(Request::Capture(command))
                },
                _ => self.ends(Err(Failure::OutOfTurn)),
            },
            GpuCheckPhase::Running => match reply {
                Reply::Captured(Err(detail)) => self.ends(
                    Err(
                        Failure::Spawn {
                            context: String::from_str(
                                "Failed to execute uv run tools/gpu_check.py",
                            ),
                            detail,
                        },
                    ),
                ),
                Reply::Captured(Ok(output)) => {
                    let printed = decode_lossy(output.stdout.as_slice());
                    if output.success {
                        let report = gpu_report(printed.as_str());
                        self.ends(Ok(report))
                    } else {
                        let mut shown = printed;
                        shown.append(" ");
                        shown.append(decode_lossy(output.stderr.as_slice()).as_str());
                        self.ends(
                            Err(
                                Failure::CommandFailed {
                                    context: String::from_str("GPU check script failed"),
                                    output: shown,
                                },
                            ),
                        )
                    }
                },
                _ => self.ends(Err(Failure::OutOfTurn)),
            },
            GpuCheckPhase::Done => Turn::quiet(Request::Done),
        }
    }

    /// Gives up the plan for its outcome: `None` while it has none.
    pub fn into_outcome(self) -> (outcome: Option<Result<GpuReport, Failure>>)
        ensures
            gpu_outcome_view(outcome) == self@.outcome,
    {
        self.outcome
    }
}

} // verus!
