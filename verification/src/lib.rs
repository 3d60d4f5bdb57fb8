//! Supervision of external tools for a local text-to-speech server: planning
//! of the commands to run, live splitting of their output into lines, the
//! lifecycle of the one supervised server process, and the release of its
//! port.
//!
//! The library decides; it starts no process and opens no file. An
//! operation is a plan: a state machine that is handed a [`plan::Reply`] and
//! answers with a [`plan::Turn`], which says what to show and what to do
//! next. A driver does what is asked (probes a path, runs a command, waits)
//! and hands back what came of it, until the plan asks for nothing more and
//! holds its outcome. Output of running commands goes through a
//! [`stream::StreamForwarder`], which turns the bytes of each read into the
//! lines to show. The one thing the library asks of the operating system
//! itself is whether the supervised process has exited, in
//! [`server::get_server_status`].
//!
//! Every plan comes with its rule as a function on plain values, and the
//! properties that matter are proved of those rules: lines do not depend on
//! how a stream is cut into reads, a working copy is repaired at most once,
//! rounds of freeing a port are bounded, a free port needs no command, a
//! second start is refused, and a stop reports success only for a port that
//! was found free.

pub mod capture;
pub mod clone;
pub mod command;
pub mod engine;
pub mod failure;
pub mod gpu;
pub mod install;
pub mod lines;
pub mod paths;
pub mod plan;
pub mod port;
pub mod repo;
pub mod sequence;
pub mod server;
pub mod setup;
pub mod step;
pub mod stream;
pub mod system;
pub mod text;
pub mod tools;
