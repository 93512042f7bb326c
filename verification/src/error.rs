//! What can go wrong, and how it is told to the user.

use crate::http_status::{display, status_line, valid};
use crate::text::{decimal, digits};
use vstd::prelude::*;
use vstd::string::StringExecFns;

verus! {

/// One of the three operations of the build service.
#[derive(Clone, Copy, Debug, PartialEq, Eq, Structural)]
pub enum Operation {
    /// Attaching a file to a named slot of a package.
    Upload,
    /// Triggering a build.
    Build,
    /// Asking for the status of build jobs.
    Status,
}

/// The part of an exchange with the service that did not succeed.
#[derive(Clone, Copy, Debug, PartialEq, Eq, Structural)]
pub enum Stage {
    /// The request was not sent, or no response arrived.
    Send,
    /// A response arrived, but its body was not what the operation returns.
    Decode,
}

/// Why a command ended without doing its work.
#[derive(Clone, Debug, PartialEq, Eq)]
pub enum Error {
    /// No API token: neither the environment nor the configuration file has one.
    NotConfigured,
    /// The file to upload does not exist.
    FileNotFound { path: String },
    /// The file to upload exists but could not be read.
    Io { path: String, detail: String },
    /// The path of the file to upload does not end in a file name.
    InvalidFileName,
    /// The service could not be reached, or its response could not be read.
    Transport { operation: Operation, stage: Stage, detail: String },
    /// The service answered with a status that does not report success.
    RemoteRejected { operation: Operation, status: u16, body: String },
    /// The service accepted the build request and created no job.
    NoJobsCreated,
}

/// An [`Error`] as a mathematical value.
pub enum ErrorView {
    NotConfigured,
    FileNotFound { path: Seq<char> },
    Io { path: Seq<char>, detail: Seq<char> },
    InvalidFileName,
    Transport { operation: Operation, stage: Stage, detail: Seq<char> },
    RemoteRejected { operation: Operation, status: u16, body: Seq<char> },
    NoJobsCreated,
}

impl View for Error {
    type V = ErrorView;

    open spec fn view(&self) -> ErrorView {
        match self {
            Error::NotConfigured => ErrorView::NotConfigured,
            Error::FileNotFound { path } => ErrorView::FileNotFound { path: path@ },
            Error::Io { path, detail } => ErrorView::Io { path: path@, detail: detail@ },
            Error::InvalidFileName => ErrorView::InvalidFileName,
            Error::Transport { operation, stage, detail } => ErrorView::Transport {
                operation: *operation,
                stage: *stage,
                detail: detail@,
            },
            Error::RemoteRejected { operation, status, body } => ErrorView::RemoteRejected {
                operation: *operation,
                status: *status,
                body: body@,
            },
            Error::NoJobsCreated => ErrorView::NoJobsCreated,
        }
    }
}

impl DeepView for Error {
    type V = ErrorView;

    open spec fn deep_view(&self) -> ErrorView {
        self@
    }
}

/// What is said when the request of an operation could not be sent.
pub open spec fn send_context(operation: Operation) -> Seq<char> {
    match operation {
        Operation::Upload => "Failed to send upload request"@,
        Operation::Build => "Failed to send build request"@,
        Operation::Status => "Failed to check build status"@,
    }
}

/// What is said when the response to an operation could not be decoded.
pub open spec fn decode_context(operation: Operation) -> Seq<char> {
    match operation {
        Operation::Upload => "Failed to parse upload response"@,
        Operation::Build => "Failed to parse build response"@,
        Operation::Status => "Failed to parse status response"@,
    }
}

/// How the message on a rejected operation begins.
pub open spec fn rejection_prefix(operation: Operation) -> Seq<char> {
    match operation {
        Operation::Upload => "Upload failed with status "@,
        Operation::Build => "Build request failed with status "@,
        Operation::Status => "Status check failed with status "@,
    }
}

/// What the command that runs an operation says in front of the
/// operation's own message, if anything.
pub open spec fn command_context(operation: Operation) -> Seq<Seq<char>> {
    match operation {
        Operation::Upload => Seq::empty(),
        Operation::Build => seq!["Failed to trigger build"@],
        Operation::Status => seq!["Failed to check build status"@],
    }
}

/// How a response status is written in a message: as the HTTP client
/// library displays it, and a number that is no status code in decimal.
pub open spec fn status_text(status: u16) -> Seq<char> {
    if valid(status) {
        status_line(status)
    } else {
        digits(status as nat)
    }
}

/// The message on an operation that the service rejected, given the status
/// as it is written and the body of the response.
pub open spec fn rejection(operation: Operation, status: Seq<char>, body: Seq<char>) -> Seq<
    char,
> {
    rejection_prefix(operation) + status + ": "@ + body
}

impl ErrorView {
    /// What the user is told: the outermost message first, each followed by
    /// the message of what caused it.
    pub open spec fn messages(self) -> Seq<Seq<char>> {
        match self {
            ErrorView::NotConfigured => seq![
                "API token not set. Use 'distropack-cli config set-token <token>' or set DISTROPACK_API_TOKEN environment variable"@,
            ],
            ErrorView::FileNotFound { path } => seq!["File not found: "@ + path],
            ErrorView::Io { path, detail } => seq!["Failed to read file: "@ + path, detail],
            ErrorView::InvalidFileName => seq!["Invalid file name"@],
            ErrorView::Transport { operation, stage: Stage::Send, detail } => {
                command_context(operation) + seq![send_context(operation), detail]
            },
            ErrorView::Transport { operation, stage: Stage::Decode, detail } => {
                command_context(operation) + seq![decode_context(operation), detail]
            },
            ErrorView::RemoteRejected { operation, status, body } => {
                command_context(operation) + seq![
                    rejection(operation, status_text(status), body),
                ]
            },
            ErrorView::NoJobsCreated => seq!["No build jobs were created"@],
        }
    }
}

/// Writes the message on an operation that the service rejected, given the
/// status as it is written and the body of the response.
pub fn rejection_message(operation: Operation, status: &str, body: &str) -> (message: String)
    ensures
        message@ == rejection(operation, status@, body@),
{
    let prefix = match operation {
        Operation::Upload => "Upload failed with status ",
        Operation::Build => "Build request failed with status ",
        Operation::Status => "Status check failed with status ",
    };
    String::from_str(prefix).concat(status).concat(": ").concat(body)
}

/// Writes a response status as it stands in a message.
fn write_status(status: u16) -> (text: String)
    ensures
        text@ == status_text(status),
{
    match display(status) {
        Some(line) => line,
        None => decimal(status as u64),
    }
}

/// The messages that the command running `operation` puts in front.
fn context_of(operation: Operation) -> (messages: Vec<String>)
    ensures
        messages.deep_view() == command_context(operation),
{
    let mut messages: Vec<String> = Vec::new();
    match operation {
        Operation::Upload => {},
        Operation::Build => {
            messages.push(String::from_str("Failed to trigger build"));
        },
        Operation::Status => {
            messages.push(String::from_str("Failed to check build status"));
        },
    }
    proof {
        assert(messages.deep_view() =~= command_context(operation));
    }
    messages
}

impl Error {
    /// What the user is told: the outermost message first, each followed by
    /// the message of what caused it.
    pub fn messages(&self) -> (messages: Vec<String>)
        ensures
            messages.deep_view() == self@.messages(),
    {
        let mut messages: Vec<String> = Vec::new();
        match self {
            Error::NotConfigured => {
                messages.push(
                    String::from_str(
                        "API token not set. Use 'distropack-cli config set-token <token>' or set DISTROPACK_API_TOKEN environment variable",
                    ),
                );
            },
            Error::FileNotFound { path } => {
                messages.push(String::from_str("File not found: ").concat(path.as_str()));
            },
            Error::Io { path, detail } => {
                messages.push(String::from_str("Failed to read file: ").concat(path.as_str()));
                messages.push(detail.clone());
            },
            Error::InvalidFileName => {
                messages.push(String::from_str("Invalid file name"));
            },
            Error::Transport { operation, stage, detail } => {
                messages = context_of(*operation);
                let ghost outer = messages.deep_view();
                let context = match (stage, operation) {
                    (Stage::Send, Operation::Upload) => "Failed to send upload request",
                    (Stage::Send, Operation::Build) => "Failed to send build request",
                    (Stage::Send, Operation::Status) => "Failed to check build status",
                    (Stage::Decode, Operation::Upload) => "Failed to parse upload response",
                    (Stage::Decode, Operation::Build) => "Failed to parse build response",
                    (Stage::Decode, Operation::Status) => "Failed to parse status response",
                };
                messages.push(String::from_str(context));
                messages.push(detail.clone());
                proof {
                    assert(messages.deep_view() =~= outer + seq![context@, detail@]);
                }
            },
            Error::RemoteRejected { operation, status, body } => {
                messages = context_of(*operation);
                let ghost outer = messages.deep_view();
                let written = write_status(*status);
                let message = rejection_message(*operation, written.as_str(), body.as_str());
                messages.push(message);
                proof {
                    assert(messages.deep_view() =~= outer + seq![message@]);
                }
            },
            Error::NoJobsCreated => {
                messages.push(String::from_str("No build jobs were created"));
            },
        }
        proof {
            assert(messages.deep_view() =~= self@.messages());
        }
        messages
    }
}

} // verus!
