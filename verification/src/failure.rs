//! The typed failures that operations of this library report, and the
//! message each one carries to the operator.

use vstd::prelude::*;
use vstd::string::StringExecFns;
use crate::text::{decimal, decimal_text};

verus! {

/// Why an operation did not succeed.
#[derive(Debug, PartialEq, Eq)]
pub enum Failure {
    /// A process could not be created.
    Spawn { context: String, detail: String },
    /// The operating system refused some other request, such as waiting for a
    /// process or reading a directory.
    Io { context: String, detail: String },
    /// A streamed step ended with a non-zero exit status.
    StepFailed { step: String, stderr_excerpt: String },
    /// A captured command ended with a non-zero exit status.
    CommandFailed { context: String, output: String },
    /// A server is already held by the supervisor.
    AlreadyRunning,
    /// The port still accepts connections after every reclaim attempt.
    PortStillBound { port: u16 },
    /// The platform offers no way to do what was asked.
    UnsupportedPlatform { message: String },
    /// The request cannot be carried out as it stands.
    Rejected { message: String },
    /// A plan was handed a reply that does not answer its pending request.
    OutOfTurn,
}

pub enum FailureView {
    Spawn { context: Seq<char>, detail: Seq<char> },
    Io { context: Seq<char>, detail: Seq<char> },
    StepFailed { step: Seq<char>, stderr_excerpt: Seq<char> },
    CommandFailed { context: Seq<char>, output: Seq<char> },
    AlreadyRunning,
    PortStillBound { port: u16 },
    UnsupportedPlatform { message: Seq<char> },
    Rejected { message: Seq<char> },
    OutOfTurn,
}

impl View for Failure {
    type V = FailureView;

    open spec fn view(&self) -> FailureView {
        match *self {
            Failure::Spawn { context, detail } => FailureView::Spawn {
                context: context@,
                detail: detail@,
            },
            Failure::Io { context, detail } => FailureView::Io {
                context: context@,
                detail: detail@,
            },
            Failure::StepFailed { step, stderr_excerpt } => FailureView::StepFailed {
                step: step@,
                stderr_excerpt: stderr_excerpt@,
            },
            Failure::CommandFailed { context, output } => FailureView::CommandFailed {
                context: context@,
                output: output@,
            },
            Failure::AlreadyRunning => FailureView::AlreadyRunning,
            Failure::PortStillBound { port } => FailureView::PortStillBound { port },
            Failure::UnsupportedPlatform { message } => FailureView::UnsupportedPlatform {
                message: message@,
            },
            Failure::Rejected { message } => FailureView::Rejected { message: message@ },
            Failure::OutOfTurn => FailureView::OutOfTurn,
        }
    }
}

impl Clone for Failure {
    fn clone(&self) -> (copy: Failure)
        ensures
            copy@ == self@,
    {
        match self {
            Failure::Spawn { context, detail } => Failure::Spawn {
                context: context.clone(),
                detail: detail.clone(),
            },
            Failure::Io { context, detail } => Failure::Io {
                context: context.clone(),
                detail: detail.clone(),
            },
            Failure::StepFailed { step, stderr_excerpt } => Failure::StepFailed {
                step: step.clone(),
                stderr_excerpt: stderr_excerpt.clone(),
            },
            Failure::CommandFailed { context, output } => Failure::CommandFailed {
                context: context.clone(),
                output: output.clone(),
            },
            Failure::AlreadyRunning => Failure::AlreadyRunning,
            Failure::PortStillBound { port } => Failure::PortStillBound { port: *port },
            Failure::UnsupportedPlatform { message } => Failure::UnsupportedPlatform {
                message: message.clone(),
            },
            Failure::Rejected { message } => Failure::Rejected { message: message.clone() },
            Failure::OutOfTurn => Failure::OutOfTurn,
        }
    }
}

impl FailureView {
    /// The message shown to the operator.
    pub open spec fn message(self) -> Seq<char> {
        match self {
            FailureView::Spawn { context, detail } => context + ": "@ + detail,
            FailureView::Io { context, detail } => context + ": "@ + detail,
            FailureView::StepFailed { step, stderr_excerpt } => step + " failed: "@
                + stderr_excerpt,
            FailureView::CommandFailed { context, output } => context + ": "@ + output,
            FailureView::AlreadyRunning => "Server is already running."@,
            FailureView::PortStillBound { port } => "Port "@ + decimal_text(port as nat)
                + " is still serving requests. Please close IndexTTS2 manually."@,
            FailureView::UnsupportedPlatform { message } => message,
            FailureView::Rejected { message } => message,
            FailureView::OutOfTurn => "The reply does not answer the pending request."@,
        }
    }
}

/// `head`, a colon and a space, then `tail`.
fn colon_joined(head: &String, tail: &String) -> (text: String)
    ensures
        text@ == head@ + ": "@ + tail@,
{
    let mut text = head.clone();
    text.append(": ");
    text.append(tail.as_str());
    text
}

impl Failure {
    /// The message shown to the operator.
    pub fn message(&self) -> (text: String)
        ensures
            text@ == self@.message(),
    {
        match self {
            Failure::Spawn { context, detail } => colon_joined(context, detail),
            Failure::Io { context, detail } => colon_joined(context, detail),
            Failure::StepFailed { step, stderr_excerpt } => {
                let mut text = step.clone();
                text.append(" failed: ");
                text.append(stderr_excerpt.as_str());
                text
            },
            Failure::CommandFailed { context, output } => colon_joined(context, output),
            Failure::AlreadyRunning => String::from_str("Server is already running."),
            Failure::PortStillBound { port } => {
                let mut text = String::from_str("Port ");
                text.append(decimal(*port as u64).as_str());
                text.append(" is still serving requests. Please close IndexTTS2 manually.");
                text
            },
            Failure::UnsupportedPlatform { message } => message.clone(),
            Failure::Rejected { message } => message.clone(),
            Failure::OutOfTurn => String::from_str(
                "The reply does not answer the pending request.",
            ),
        }
    }
}

} // verus!
