//! The development server as a whole: the three tasks it runs, how it
//! starts, and what it reports when the first of them ends.

use crate::pipeline;
use crate::rebuild::{LoopEvent, LoopEventView};
use crate::reload::WebSocketError;
use crate::text::{join_texts, joined, texts};
use vstd::prelude::*;
use vstd::string::*;

verus! {

/// The port that the site is served on where none is asked for.
pub const DEFAULT_PORT: u16 = 24747;

/// The port that the site is served on: the one asked for, or the usual
/// one.
pub fn port_or_default(port: Option<u16>) -> (result: u16)
    ensures
        result == match port {
            Some(port) => port,
            None => DEFAULT_PORT,
        },
{
    match port {
        Some(port) => port,
        None => DEFAULT_PORT,
    }
}

/// Why the development server ended.
#[derive(Debug)]
pub enum Error {
    Build { source: pipeline::Error },
    Canonicalize { source: String },
    Io { source: String },
    WatchStart { source: String },
    BadAddress { value: String, source: String },
    ServeStart { source: String },
    /// A task did not end by itself: it was aborted.
    Serve { source: String },
    Tokio { source: String },
    Watcher { source: String },
    DebounceErrors(Vec<String>),
    WebSocket(WebSocketError),
    Rebuild,
}

pub open spec fn error_text(error: Error) -> Seq<char> {
    match error {
        Error::Build { source } => "Build error: "@ + pipeline::error_text(source),
        Error::Canonicalize { source } => source@,
        Error::Io { source } => "I/O error\n"@ + source@,
        Error::WatchStart { source } => "Error starting file watcher\n"@ + source@,
        Error::BadAddress { value, source } => "Could not open socket on address: "@ + value@
            + "\n"@ + source@,
        Error::ServeStart { source } => "Could not start the site server\n"@ + source@,
        Error::Serve { source } => "Error while serving the site\n"@ + source@,
        Error::Tokio { source } => "Runtime error\n"@ + source@,
        Error::Watcher { source } => "Building watcher\n"@ + source@,
        Error::DebounceErrors(errors) => "Debouncing changes from the file system:\n"@ + joined(
            texts(errors@),
            "\n"@,
        ),
        Error::WebSocket(error) => crate::reload::error_text(error@),
        Error::Rebuild => "Could not send rebuild notification"@,
    }
}

fn prefixed(before: &str, text: &str) -> (result: String)
    ensures
        result@ == before@ + text@,
{
    let mut result = String::from_str(before);
    result.append(text);
    result
}

impl Error {
    /// Says why the development server ended.
    pub fn describe(&self) -> (text: String)
        ensures
            text@ == error_text(*self),
    {
        match self {
            Error::Build { source } => prefixed("Build error: ", source.describe().as_str()),
            Error::Canonicalize { source } => source.clone(),
            Error::Io { source } => prefixed("I/O error\n", source.as_str()),
            Error::WatchStart { source } => prefixed(
                "Error starting file watcher\n",
                source.as_str(),
            ),
            Error::BadAddress { value, source } => {
                let mut text = prefixed("Could not open socket on address: ", value.as_str());
                text.append("\n");
                text.append(source.as_str());
                text
            },
            Error::ServeStart { source } => prefixed(
                "Could not start the site server\n",
                source.as_str(),
            ),
            Error::Serve { source } => prefixed("Error while serving the site\n", source.as_str()),
            Error::Tokio { source } => prefixed("Runtime error\n", source.as_str()),
            Error::Watcher { source } => prefixed("Building watcher\n", source.as_str()),
            Error::DebounceErrors(errors) => prefixed(
                "Debouncing changes from the file system:\n",
                join_texts(errors, "\n").as_str(),
            ),
            Error::WebSocket(error) => error.describe(),
            Error::Rebuild => String::from_str("Could not send rebuild notification"),
        }
    }
}

/// The tasks that the development server runs side by side.
#[derive(Debug, Clone, Copy, PartialEq, Eq, Structural)]
pub enum Task {
    /// Serves the built site and pushes reloads to browsers.
    Serve,
    /// Watches the site's directory.
    Watch,
    /// Rebuilds the site after each change.
    Rebuild,
}

/// How a task ended.
#[derive(Debug)]
pub enum TaskEnd {
    /// The task ran to its end, with or without an error of its own.
    Returned(Result<(), Error>),
    /// The task was aborted from outside, or panicked.
    Aborted { reason: String },
}

/// The tasks to start, in the order in which they are started.
pub fn tasks() -> (result: [Task; 3])
    ensures
        result@ == seq![Task::Serve, Task::Watch, Task::Rebuild],
{
    [Task::Serve, Task::Watch, Task::Rebuild]
}

/// What the server does about the build that it makes before it starts
/// its tasks: nothing if the build went well, and a warning if it failed.
/// It starts its tasks either way: a broken site is served rather than
/// none.
pub fn initial_build_warning(outcome: &Result<(), pipeline::Error>) -> (warning: Option<String>)
    ensures
        match *outcome {
            Ok(_) => warning is None,
            Err(error) => warning matches Some(text) && text@ == "Initial build failed: "@
                + pipeline::error_text(error),
        },
{
    match outcome {
        Ok(_) => None,
        Err(error) => Some(prefixed("Initial build failed: ", error.describe().as_str())),
    }
}

/// What the rebuild loop is told when a build has ended.
pub open spec fn build_event(outcome: Result<(), pipeline::Error>) -> LoopEventView {
    match outcome {
        Ok(_) => LoopEventView::Built,
        Err(error) => LoopEventView::BuildFailed {
            cause: error_text(Error::Build { source: error }),
        },
    }
}

/// Tells the rebuild loop how a build ended.
pub fn after_build(outcome: Result<(), pipeline::Error>) -> (event: LoopEvent)
    ensures
        event@ == build_event(outcome),
{
    match outcome {
        Ok(_) => LoopEvent::Built,
        Err(source) => {
            let error = Error::Build { source };
            LoopEvent::BuildFailed { cause: error.describe() }
        },
    }
}

/// What the whole server reports when the first of its tasks has ended.
/// A task that ran to its end gives its own result. A task that was
/// aborted gives an error of another shape, so that the two can be told
/// apart.
pub fn supervise(end: TaskEnd) -> (result: Result<(), Error>)
    ensures
        result == match end {
            TaskEnd::Returned(outcome) => outcome,
            TaskEnd::Aborted { reason } => Err(Error::Serve { source: reason }),
        },
{
    match end {
        TaskEnd::Returned(outcome) => outcome,
        TaskEnd::Aborted { reason } => Err(Error::Serve { source: reason }),
    }
}

pub open spec fn task_name(task: Task) -> Seq<char> {
    match task {
        Task::Serve => "serve"@,
        Task::Watch => "watch"@,
        Task::Rebuild => "rebuild"@,
    }
}

/// How the end of the server reads for its operator: which task ended
/// first, and why.
pub open spec fn ending_text(task: Task, end: TaskEnd) -> Seq<char> {
    match end {
        TaskEnd::Returned(Ok(_)) => task_name(task) + " task finished"@,
        TaskEnd::Returned(Err(error)) => task_name(task) + " task failed: "@ + error_text(error),
        TaskEnd::Aborted { reason } => task_name(task) + " task was aborted: "@ + reason@,
    }
}

/// Tells the operator which task ended first, and why.
pub fn report(task: Task, end: &TaskEnd) -> (text: String)
    ensures
        text@ == ending_text(task, *end),
{
    let mut text = match task {
        Task::Serve => String::from_str("serve"),
        Task::Watch => String::from_str("watch"),
        Task::Rebuild => String::from_str("rebuild"),
    };
    match end {
        TaskEnd::Returned(Ok(_)) => {
            text.append(" task finished");
        },
        TaskEnd::Returned(Err(error)) => {
            text.append(" task failed: ");
            text.append(error.describe().as_str());
        },
        TaskEnd::Aborted { reason } => {
            text.append(" task was aborted: ");
            text.append(reason.as_str());
        },
    }
    text
}

} // verus!
