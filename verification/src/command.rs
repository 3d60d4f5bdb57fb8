//! What to run: a plain description of one external command, and the result
//! of one that ran to completion. The driver turns a `CommandSpec` into an
//! operating-system process; the library never starts one itself.

use vstd::prelude::*;
use vstd::string::StringExecFns;
use crate::failure::{Failure, FailureView};
use crate::text::{decode_lossy, lossy_text, option_text, texts};

verus! {

/// The family of operating system the application runs on, fixed at startup.
#[derive(Clone, Copy, Debug, PartialEq, Eq, Structural)]
pub enum Platform {
    Windows,
    MacOs,
    Linux,
    /// A Unix other than macOS and Linux.
    OtherUnix,
    /// Neither Unix nor Windows.
    Other,
}

impl Platform {
    pub open spec fn spec_is_unix(self) -> bool {
        self == Platform::MacOs || self == Platform::Linux || self == Platform::OtherUnix
    }

    #[verifier::when_used_as_spec(spec_is_unix)]
    pub fn is_unix(self) -> (unix: bool)
        ensures
            unix == self.spec_is_unix(),
    {
        match self {
            Platform::MacOs | Platform::Linux | Platform::OtherUnix => true,
            Platform::Windows | Platform::Other => false,
        }
    }
}

/// The process-creation flag that keeps a console window from appearing.
pub const CREATE_NO_WINDOW: u32 = 0x0800_0000;

/// One external command: program, arguments in order, and the optional
/// working directory, environment overrides and creation flags.
#[derive(Clone, Debug, PartialEq, Eq)]
pub struct CommandSpec {
    pub program: String,
    pub args: Vec<String>,
    pub current_dir: Option<String>,
    pub envs: Vec<(String, String)>,
    pub creation_flags: Option<u32>,
}

/// The mathematical content of a [`CommandSpec`].
pub struct CommandSpecView {
    pub program: Seq<char>,
    pub args: Seq<Seq<char>>,
    pub current_dir: Option<Seq<char>>,
    pub envs: Seq<(Seq<char>, Seq<char>)>,
    pub creation_flags: Option<u32>,
}

/// The key and value texts of a list of environment overrides.
pub open spec fn env_texts(envs: Seq<(String, String)>) -> Seq<(Seq<char>, Seq<char>)> {
    envs.map_values(|pair: (String, String)| (pair.0@, pair.1@))
}

impl View for CommandSpec {
    type V = CommandSpecView;

    open spec fn view(&self) -> CommandSpecView {
        CommandSpecView {
            program: self.program@,
            args: texts(self.args@),
            current_dir: option_text(self.current_dir),
            envs: env_texts(self.envs@),
            creation_flags: self.creation_flags,
        }
    }
}

impl CommandSpecView {
    /// A command with no arguments that inherits directory and environment.
    pub open spec fn new(program: Seq<char>) -> CommandSpecView {
        CommandSpecView {
            program,
            args: Seq::empty(),
            current_dir: None,
            envs: Seq::empty(),
            creation_flags: None,
        }
    }

    pub open spec fn arg(self, arg: Seq<char>) -> CommandSpecView {
        CommandSpecView { args: self.args.push(arg), ..self }
    }

    pub open spec fn current_dir(self, dir: Seq<char>) -> CommandSpecView {
        CommandSpecView { current_dir: Some(dir), ..self }
    }

    pub open spec fn env(self, key: Seq<char>, value: Seq<char>) -> CommandSpecView {
        CommandSpecView { envs: self.envs.push((key, value)), ..self }
    }

    /// The command with the platform's spawn defaults applied: on Windows the
    /// console window is suppressed, elsewhere nothing changes.
    pub open spec fn configured(self, platform: Platform) -> CommandSpecView {
        if platform == Platform::Windows {
            CommandSpecView { creation_flags: Some(CREATE_NO_WINDOW), ..self }
        } else {
            self
        }
    }
}

impl CommandSpec {
    /// A bare command: no arguments, inherited directory and environment, no
    /// platform defaults.
    pub fn new(program: &str) -> (command: CommandSpec)
        ensures
            command@ == CommandSpecView::new(program@),
    {
        let command = CommandSpec {
            program: String::from_str(program),
            args: Vec::new(),
            current_dir: None,
            envs: Vec::new(),
            creation_flags: None,
        };
        assert(command@.args =~= Seq::empty());
        assert(command@.envs =~= Seq::empty());
        command
    }

    /// Appends one argument.
    pub fn arg(self, arg: &str) -> (command: CommandSpec)
        ensures
            command@ == self@.arg(arg@),
    {
        let mut command = self;
        command.args.push(String::from_str(arg));
        assert(command@.args =~= self@.args.push(arg@));
        command
    }

    /// Sets the working directory.
    pub fn current_dir(self, dir: &str) -> (command: CommandSpec)
        ensures
            command@ == self@.current_dir(dir@),
    {
        let mut command = self;
        command.current_dir = Some(String::from_str(dir));
        command
    }

    /// Adds one environment override.
    pub fn env(self, key: &str, value: &str) -> (command: CommandSpec)
        ensures
            command@ == self@.env(key@, value@),
    {
        let mut command = self;
        command.envs.push((String::from_str(key), String::from_str(value)));
        assert(command@.envs =~= self@.envs.push((key@, value@)));
        command
    }
}

/// Applies the platform's spawn defaults to `command`.
pub fn configure_command(command: &mut CommandSpec, platform: Platform)
    ensures
        final(command)@ == old(command)@.configured(platform),
{
    if platform == Platform::Windows {
        command.creation_flags = Some(CREATE_NO_WINDOW);
    }
}

/// A command for `program` with the platform's spawn defaults applied.
pub fn new_command(program: &str, platform: Platform) -> (command: CommandSpec)
    ensures
        command@ == CommandSpecView::new(program@).configured(platform),
{
    let mut command = CommandSpec::new(program);
    configure_command(&mut command, platform);
    command
}

/// What a command that ran to completion left behind.
#[derive(Clone, Debug, PartialEq, Eq)]
pub struct CommandOutput {
    /// Whether the exit status reports success.
    pub success: bool,
    /// The exit status as the operating system describes it.
    pub status: String,
    pub stdout: Vec<u8>,
    pub stderr: Vec<u8>,
}

pub struct CommandOutputView {
    pub success: bool,
    pub status: Seq<char>,
    pub stdout: Seq<u8>,
    pub stderr: Seq<u8>,
}

impl View for CommandOutput {
    type V = CommandOutputView;

    open spec fn view(&self) -> CommandOutputView {
        CommandOutputView {
            success: self.success,
            status: self.status@,
            stdout: self.stdout@,
            stderr: self.stderr@,
        }
    }
}

/// A copy of a list of strings.
pub fn copy_strings(strings: &Vec<String>) -> (copy: Vec<String>)
    ensures
        texts(copy@) == texts(strings@),
{
    let mut copy: Vec<String> = Vec::new();
    let mut i: usize = 0;
    while i < strings.len()
        invariant
            i <= strings.len(),
            texts(copy@) == texts(strings@).take(i as int),
        decreases strings.len() - i,
    {
        let ghost before = copy@;
        let item = strings[i].clone();
        copy.push(item);
        assert(texts(copy@) =~= texts(before).push(item@));
        assert(texts(strings@).take(i + 1) =~= texts(strings@).take(i as int).push(
            strings@[i as int]@,
        ));
        i = i + 1;
    }
    assert(texts(strings@).take(strings@.len() as int) == texts(strings@));
    copy
}

impl CommandSpec {
    /// A copy of the command.
    pub fn duplicate(&self) -> (copy: CommandSpec)
        ensures
            copy@ == self@,
    {
        let mut envs: Vec<(String, String)> = Vec::new();
        let mut i: usize = 0;
        while i < self.envs.len()
            invariant
                i <= self.envs.len(),
                env_texts(envs@) == env_texts(self.envs@).take(i as int),
            decreases self.envs.len() - i,
        {
            let ghost before = envs@;
            let key = self.envs[i].0.clone();
            let value = self.envs[i].1.clone();
            envs.push((key, value));
            assert(env_texts(envs@) =~= env_texts(before).push((key@, value@)));
            assert(env_texts(self.envs@).take(i + 1) =~= env_texts(self.envs@).take(
                i as int,
            ).push((self.envs@[i as int].0@, self.envs@[i as int].1@)));
            i = i + 1;
        }
        assert(env_texts(self.envs@).take(self.envs@.len() as int) == env_texts(self.envs@));
        CommandSpec {
            program: self.program.clone(),
            args: copy_strings(&self.args),
            current_dir: match &self.current_dir {
                Some(dir) => Some(dir.clone()),
                None => None,
            },
            envs,
            creation_flags: self.creation_flags,
        }
    }
}

/// What a captured command amounts to: the failure to run it, the failure
/// it reported by its exit status, with what it wrote to its error stream,
/// or its output.
pub open spec fn spec_capture_verdict(
    ran: Result<CommandOutputView, Seq<char>>,
    spawn_context: Seq<char>,
    failure_context: Seq<char>,
) -> Result<CommandOutputView, FailureView> {
    match ran {
        Err(detail) => Err(FailureView::Spawn { context: spawn_context, detail }),
        Ok(output) => if output.success {
            Ok(output)
        } else {
            Err(
                FailureView::CommandFailed {
                    context: failure_context,
                    output: lossy_text(output.stderr),
                },
            )
        },
    }
}

pub open spec fn ran_view(ran: Result<CommandOutput, String>) -> Result<
    CommandOutputView,
    Seq<char>,
> {
    match ran {
        Ok(output) => Ok(output@),
        Err(detail) => Err(detail@),
    }
}

pub open spec fn verdict_view(verdict: Result<CommandOutput, Failure>) -> Result<
    CommandOutputView,
    FailureView,
> {
    match verdict {
        Ok(output) => Ok(output@),
        Err(failure) => Err(failure@),
    }
}

/// Judges a captured command by whether it ran and by its exit status.
pub fn capture_verdict(
    ran: Result<CommandOutput, String>,
    spawn_context: &str,
    failure_context: &str,
) -> (verdict: Result<CommandOutput, Failure>)
    ensures
        verdict_view(verdict) == spec_capture_verdict(
            ran_view(ran),
            spawn_context@,
            failure_context@,
        ),
{
    match ran {
        Err(detail) => Err(Failure::Spawn { context: String::from_str(spawn_context), detail }),
        Ok(output) => {
            if output.success {
                Ok(output)
            } else {
                let shown = decode_lossy(output.stderr.as_slice());
                Err(
                    Failure::CommandFailed {
                        context: String::from_str(failure_context),
                        output: shown,
                    },
                )
            }
        },
    }
}

} // verus!
