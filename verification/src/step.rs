//! The end of one streamed step: what its exit status and the lines that its
//! error stream left behind amount to.

use vstd::prelude::*;
use vstd::string::StringExecFns;
use crate::failure::{Failure, FailureView};
use crate::stream::{ForwarderView, StreamForwarder, StreamSource};
use crate::text::{join, join_texts, lemma_join_holds_parts, part_offset, texts};

verus! {

/// The excerpt of a step that failed without leaving a line on its error
/// stream, or whose error stream could not be had.
pub open spec fn excerpt_placeholder() -> Seq<char> {
    "command failed"@
}

/// The excerpt that stands for the retained lines: the lines, one per line of
/// text, or the placeholder where there is none.
pub open spec fn spec_stderr_excerpt(retained: Option<Seq<Seq<char>>>) -> Seq<char> {
    match retained {
        Some(lines) => if lines.len() > 0 {
            join_texts(lines, "\n"@)
        } else {
            excerpt_placeholder()
        },
        None => excerpt_placeholder(),
    }
}

/// The excerpt that stands for the retained lines of a step's error stream.
pub fn stderr_excerpt(retained: Option<&Vec<String>>) -> (excerpt: String)
    ensures
        excerpt@ == spec_stderr_excerpt(
            match retained {
                Some(lines) => Some(texts(lines@)),
                None => None,
            },
        ),
{
    match retained {
        Some(lines) => {
            if lines.len() > 0 {
                join(lines, "\n")
            } else {
                String::from_str("command failed")
            }
        },
        None => String::from_str("command failed"),
    }
}

/// The failure of a step whose process could not be created.
pub open spec fn spec_spawn_failure(step: Seq<char>, detail: Seq<char>) -> FailureView {
    FailureView::Spawn { context: "Failed to spawn "@ + step, detail }
}

/// The failure of a step whose process could not be created.
pub fn spawn_failure(step: &str, detail: &str) -> (failure: Failure)
    ensures
        failure@ == spec_spawn_failure(step@, detail@),
{
    let mut context = String::from_str("Failed to spawn ");
    context.append(step);
    Failure::Spawn { context, detail: String::from_str(detail) }
}

/// What a step amounts to. `exit` is the outcome of waiting for the process:
/// whether it reported success, or why waiting failed. `retained` holds the
/// lines of its error stream.
pub open spec fn spec_conclude_step(
    step: Seq<char>,
    exit: Result<bool, Seq<char>>,
    retained: Option<Seq<Seq<char>>>,
) -> Result<(), FailureView> {
    match exit {
        Ok(true) => Ok(()),
        Ok(false) => Err(
            FailureView::StepFailed { step, stderr_excerpt: spec_stderr_excerpt(retained) },
        ),
        Err(detail) => Err(FailureView::Io { context: "Failed to wait for "@ + step, detail }),
    }
}

pub open spec fn result_view(result: Result<(), Failure>) -> Result<(), FailureView> {
    match result {
        Ok(()) => Ok(()),
        Err(failure) => Err(failure@),
    }
}

pub open spec fn exit_view(exit: Result<bool, String>) -> Result<bool, Seq<char>> {
    match exit {
        Ok(success) => Ok(success),
        Err(detail) => Err(detail@),
    }
}

/// Decides what a step amounts to once its process has been waited for.
pub fn conclude_step(step: &str, exit: Result<bool, String>, retained: Option<&Vec<String>>) -> (result:
    Result<(), Failure>)
    ensures
        result_view(result) == spec_conclude_step(
            step@,
            exit_view(exit),
            match retained {
                Some(lines) => Some(texts(lines@)),
                None => None,
            },
        ),
{
    match exit {
        Ok(true) => Ok(()),
        Ok(false) => Err(
            Failure::StepFailed {
                step: String::from_str(step),
                stderr_excerpt: stderr_excerpt(retained),
            },
        ),
        Err(detail) => {
            let mut context = String::from_str("Failed to wait for ");
            context.append(step);
            Err(Failure::Io { context, detail })
        },
    }
}

/// The two forwarders of a step: the one for standard output only shows, the
/// one for standard error also retains.
pub fn step_forwarders(step: &str) -> (pair: (StreamForwarder, StreamForwarder))
    ensures
        pair.0@ == ForwarderView::start(Some(step@), StreamSource::Stdout, false),
        pair.1@ == ForwarderView::start(Some(step@), StreamSource::Stderr, true),
{
    (
        StreamForwarder::new(Some(String::from_str(step)), StreamSource::Stdout, false),
        StreamForwarder::new(Some(String::from_str(step)), StreamSource::Stderr, true),
    )
}

/// Where line `index` begins in the message of a failed step.
pub open spec fn line_position(step: Seq<char>, lines: Seq<Seq<char>>, index: int) -> int {
    step.len() + " failed: "@.len() + part_offset(lines, "\n"@, index)
}

/// A step whose command exits with a non-zero status fails with a message
/// that holds every line its error stream showed, whole and in the order of
/// showing: each line stands at its position, after the end of the line
/// before it.
pub proof fn lemma_failure_message_holds_every_line(
    step: Seq<char>,
    lines: Seq<Seq<char>>,
    index: int,
)
    requires
        0 <= index < lines.len(),
    ensures
        spec_conclude_step(step, Ok(false), Some(lines)) is Err,
        ({
            let message = spec_conclude_step(step, Ok(false), Some(lines))->Err_0.message();
            let at = line_position(step, lines, index);
            &&& 0 <= at
            &&& at + lines[index].len() <= message.len()
            &&& message.subrange(at, at + lines[index].len()) == lines[index]
            &&& index > 0 ==> at >= line_position(step, lines, index - 1) + lines[index - 1].len()
        }),
{
    let joined = join_texts(lines, "\n"@);
    let prefix = step + " failed: "@;
    let message = prefix + joined;
    lemma_join_holds_parts(lines, "\n"@, index);
    let from = part_offset(lines, "\n"@, index);
    let to = from + lines[index].len();
    assert(message.subrange(prefix.len() + from, prefix.len() + to) == joined.subrange(from, to));
}

} // verus!
