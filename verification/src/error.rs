//! The error returned at the library boundary, and the one question its
//! callers ask of it: which Responses failure, if any, lies behind it.

use std::sync::Arc;

use vstd::prelude::*;

use vstd::string::StringExecFns;

use crate::responses::{
    option_value, response_error_text, ResponseError, ResponsesError, ResponsesServiceError,
};

verus! {

#[verifier::external_type_specification]
#[verifier::external_body]
pub struct ExPathBuf(std::path::PathBuf);

#[verifier::external_type_specification]
#[verifier::external_body]
pub struct ExIoError(std::io::Error);

#[verifier::external_type_specification]
#[verifier::external_body]
pub struct ExJsonError(serde_json::Error);

/// The text that `Path::display` shows for a path: the path's characters, with
/// any part that is not valid UTF-8 replaced.
pub uninterp spec fn displayed_path(path: std::path::PathBuf) -> Seq<char>;

/// Formats a workspace path through `Path::display`; the text depends on the
/// path alone.
#[verifier::external_body]
fn path_text(path: &std::path::PathBuf) -> (text: String)
    ensures
        text@ == displayed_path(*path),
{
    format!("{}", path.display())
}

/// Calls `ToString::to_string` on a filesystem error. The text comes from the
/// operating system, so nothing of it is stated here.
#[verifier::external_body]
fn io_error_text(error: &std::io::Error) -> String {
    error.to_string()
}

/// Calls `ToString::to_string` on a JSON serialization error. An error that
/// wraps an I/O error shows that error's text, which may come from the
/// operating system, so nothing of the text is stated here.
#[verifier::external_body]
fn json_error_text(error: &serde_json::Error) -> String {
    error.to_string()
}

/// Failure to serialize a contractual agent event.
#[derive(Debug, Clone, PartialEq, Eq)]
pub struct EventError {
    /// What went wrong.
    pub detail: String,
}

/// Failure to build the tool registry or tool runtime of an agent driver.
#[derive(Debug, Clone, PartialEq, Eq)]
pub struct ToolsBuildError {
    /// What went wrong.
    pub detail: String,
}

/// Result type returned by the owned agent lifecycle.
pub type Result<T> = std::result::Result<T, PicocodexError>;

/// Error returned by the Picocodex library boundary.
#[derive(Debug)]
pub enum PicocodexError {
    /// Caller input or two configured policies are incompatible.
    InvalidRequest(String),
    /// The configured workspace could not be resolved.
    ResolveWorkspace {
        /// Workspace path supplied by the caller.
        path: std::path::PathBuf,
        /// Underlying filesystem failure.
        source: std::io::Error,
    },
    /// The resolved workspace exists but is not a directory.
    WorkspaceNotDirectory {
        /// Resolved workspace path.
        path: std::path::PathBuf,
    },
    /// The resolved workspace cannot be represented as UTF-8.
    WorkspaceNotUtf8 {
        /// Resolved workspace path.
        path: std::path::PathBuf,
    },
    /// A follow-on prompt attempted to change an owned session's workspace.
    WorkspaceChanged {
        /// Workspace already owned by the session.
        current: String,
        /// Conflicting workspace requested by the caller.
        requested: String,
    },
    /// A completed provider response violated an agent-loop invariant.
    MalformedResponse {
        /// Stable invariant failure description.
        detail: &'static str,
    },
    /// A service returned an output for the wrong kind of attempt.
    InvalidAttemptState {
        /// Stable invalid-state description.
        detail: &'static str,
    },
    /// The immutable request prefix could not be serialized for fingerprinting.
    SerializePromptPrefix(serde_json::Error),
    /// The private driver stopped before accepting a command.
    AgentStopped,
    /// The private driver stopped after accepting a turn but before delivering its result.
    TurnStopped,
    /// Shared cleanup failure returned to every caller of an idempotent shutdown.
    Shutdown(Arc<PicocodexError>),
    /// Steering targeted a queued or terminal turn.
    TurnNotSteerable,
    /// The active turn cannot accept more queued steering input.
    SteerQueueFull,
    /// Cancellation targeted an already terminal turn.
    TurnNotCancellable,
    /// The targeted turn was cancelled after its resources stopped.
    TurnCancelled,
    /// A fork was requested before any safe committed boundary existed.
    ForkBeforeCompletedTurn,
    /// A historical result came from a different conversation lineage.
    CheckpointLineageMismatch,
    /// A serialized session snapshot failed structural or policy validation.
    InvalidSessionSnapshot(String),
    /// Agent construction was attempted outside an active Tokio runtime.
    TokioRuntimeUnavailable,
    /// Contractual agent event serialization failed.
    Event(EventError),
    /// A complete Responses operation failed.
    Response(ResponseError),
    /// The configured tool registry or runtime could not be built.
    Tools(ToolsBuildError),
}

impl PicocodexError {
    /// The Responses failure behind this error: that of a failed Responses
    /// operation, looking through any number of shared shutdown wrappers.
    pub open spec fn spec_responses_error(self) -> Option<ResponsesError>
        decreases self,
    {
        match self {
            PicocodexError::Response(error) => error.spec_responses_error(),
            PicocodexError::Shutdown(inner) => (*inner).spec_responses_error(),
            _ => None,
        }
    }

    /// The error that a shared shutdown failure wraps; any other error itself.
    pub open spec fn shared_error(self) -> PicocodexError {
        match self {
            PicocodexError::Shutdown(inner) => *inner,
            _ => self,
        }
    }

    /// The error that a chain of shared shutdown wrappers ends in.
    pub open spec fn innermost(self) -> PicocodexError
        decreases self,
    {
        match self {
            PicocodexError::Shutdown(inner) => (*inner).innermost(),
            _ => self,
        }
    }

    /// Whether `text` describes this error. Where the error holds a filesystem
    /// error or a serialization error, the text of that error is left open; a shared shutdown
    /// failure is described as the error it shares.
    pub open spec fn describes(self, text: Seq<char>) -> bool
        decreases self,
    {
        match self {
            PicocodexError::InvalidRequest(request) => text == "invalid task request: "@ + request@,
            PicocodexError::ResolveWorkspace { path, .. } => exists|filesystem: Seq<char>|
                text == "failed to resolve task workspace "@ + displayed_path(path) + ": "@
                    + filesystem,
            PicocodexError::WorkspaceNotDirectory { path } => text
                == "task workspace is not a directory: "@ + displayed_path(path),
            PicocodexError::WorkspaceNotUtf8 { path } => text
                == "task workspace path is not valid UTF-8: "@ + displayed_path(path),
            PicocodexError::WorkspaceChanged { current, requested } => text
                == "an active agent session cannot change workspace from "@ + current@ + " to "@
                + requested@,
            PicocodexError::MalformedResponse { detail } => text == "malformed Responses API event: "@
                + detail@,
            PicocodexError::InvalidAttemptState { detail } => text
                == "invalid Responses attempt state: "@ + detail@,
            PicocodexError::SerializePromptPrefix(_) => exists|serialization: Seq<char>|
                text == "failed to fingerprint the immutable prompt prefix: "@ + serialization,
            PicocodexError::AgentStopped => text == "the agent stopped before accepting the command"@,
            PicocodexError::TurnStopped => text == "the agent stopped before the turn completed"@,
            PicocodexError::Shutdown(inner) => (*inner).describes(text),
            PicocodexError::TurnNotSteerable => text
                == "the targeted turn is queued, completed, or otherwise not active for steering"@,
            PicocodexError::SteerQueueFull => text == "the active turn's steering queue is full"@,
            PicocodexError::TurnNotCancellable => text
                == "the targeted turn has already completed or been cancelled"@,
            PicocodexError::TurnCancelled => text == "the turn was cancelled"@,
            PicocodexError::ForkBeforeCompletedTurn => text
                == "the agent has no safe conversation boundary to fork"@,
            PicocodexError::CheckpointLineageMismatch => text
                == "the completed turn belongs to a different conversation lineage"@,
            PicocodexError::InvalidSessionSnapshot(reason) => text == "invalid session snapshot: "@
                + reason@,
            PicocodexError::TokioRuntimeUnavailable => text
                == "building an agent requires an active Tokio runtime"@,
            PicocodexError::Event(event) => text == event.detail@,
            PicocodexError::Response(response) => text == response_error_text(response),
            PicocodexError::Tools(tools) => text == "failed to build tools for an agent driver: "@
                + tools.detail@,
        }
    }

    /// Describes the error in words.
    pub fn message(&self) -> (text: String)
        ensures
            self.describes(text@),
        decreases self,
    {
        match self {
            PicocodexError::InvalidRequest(request) => {
                let mut text = "invalid task request: ".to_owned();
                text.append(request.as_str());
                text
            },
            PicocodexError::ResolveWorkspace { path, source } => {
                let mut text = "failed to resolve task workspace ".to_owned();
                text.append(path_text(path).as_str());
                text.append(": ");
                let filesystem = io_error_text(source);
                text.append(filesystem.as_str());
                assert(text@ == "failed to resolve task workspace "@ + displayed_path(*path) + ": "@
                    + filesystem@);
                text
            },
            PicocodexError::WorkspaceNotDirectory { path } => {
                let mut text = "task workspace is not a directory: ".to_owned();
                text.append(path_text(path).as_str());
                text
            },
            PicocodexError::WorkspaceNotUtf8 { path } => {
                let mut text = "task workspace path is not valid UTF-8: ".to_owned();
                text.append(path_text(path).as_str());
                text
            },
            PicocodexError::WorkspaceChanged { current, requested } => {
                let mut text = "an active agent session cannot change workspace from ".to_owned();
                text.append(current.as_str());
                text.append(" to ");
                text.append(requested.as_str());
                text
            },
            PicocodexError::MalformedResponse { detail } => {
                let mut text = "malformed Responses API event: ".to_owned();
                text.append(detail);
                text
            },
            PicocodexError::InvalidAttemptState { detail } => {
                let mut text = "invalid Responses attempt state: ".to_owned();
                text.append(detail);
                text
            },
            PicocodexError::SerializePromptPrefix(error) => {
                let mut text = "failed to fingerprint the immutable prompt prefix: ".to_owned();
                let serialization = json_error_text(error);
                text.append(serialization.as_str());
                assert(text@ == "failed to fingerprint the immutable prompt prefix: "@
                    + serialization@);
                text
            },
            PicocodexError::AgentStopped => "the agent stopped before accepting the command".to_owned(),
            PicocodexError::TurnStopped => "the agent stopped before the turn completed".to_owned(),
            PicocodexError::Shutdown(inner) => inner.message(),
            PicocodexError::TurnNotSteerable => "the targeted turn is queued, completed, or otherwise not active for steering".to_owned(),
            PicocodexError::SteerQueueFull => "the active turn's steering queue is full".to_owned(),
            PicocodexError::TurnNotCancellable => "the targeted turn has already completed or been cancelled".to_owned(),
            PicocodexError::TurnCancelled => "the turn was cancelled".to_owned(),
            PicocodexError::ForkBeforeCompletedTurn => "the agent has no safe conversation boundary to fork".to_owned(),
            PicocodexError::CheckpointLineageMismatch => "the completed turn belongs to a different conversation lineage".to_owned(),
            PicocodexError::InvalidSessionSnapshot(reason) => {
                let mut text = "invalid session snapshot: ".to_owned();
                text.append(reason.as_str());
                text
            },
            PicocodexError::TokioRuntimeUnavailable => "building an agent requires an active Tokio runtime".to_owned(),
            PicocodexError::Event(event) => event.detail.clone(),
            PicocodexError::Response(response) => response.message(),
            PicocodexError::Tools(tools) => {
                let mut text = "failed to build tools for an agent driver: ".to_owned();
                text.append(tools.detail.as_str());
                text
            },
        }
    }

    /// Returns the underlying Responses transport/API error, including when a
    /// caller-provided middleware boxed the standard service error.
    pub fn responses_error(&self) -> (found: Option<&ResponsesError>)
        ensures
            option_value(found) == self.spec_responses_error(),
        decreases self,
    {
        match self {
            PicocodexError::Response(error) => error.responses_error(),
            PicocodexError::Shutdown(inner) => inner.responses_error(),
            _ => None,
        }
    }
}

/// A failed Responses operation is the single boundary through which provider
/// failures reach callers: an error exposes a Responses failure exactly when,
/// beneath its shutdown wrappers, it is a failed Responses operation that
/// carries one, and then it exposes that operation's failure.
pub proof fn lemma_response_is_the_single_failure_boundary(error: PicocodexError)
    ensures
        error.spec_responses_error() == match error.innermost() {
            PicocodexError::Response(operation) => operation.spec_responses_error(),
            _ => None,
        },
        error.spec_responses_error() is Some ==> error.innermost() is Response,
    decreases error,
{
    if error is Shutdown {
        lemma_response_is_the_single_failure_boundary(error.shared_error());
    }
}

/// An error exposes a Responses failure exactly when, beneath its shutdown
/// wrappers, it is a failed Responses operation in which the standard service
/// reported that failure, directly or boxed by a middleware. Every other error,
/// a middleware's own failure among them, exposes none.
pub proof fn lemma_responses_failures_come_from_the_service(
    error: PicocodexError,
    responses: ResponsesError,
)
    ensures
        error.spec_responses_error() == Some(responses) <==> (error.innermost()
            == PicocodexError::Response(
            ResponseError::Service(ResponsesServiceError::Responses(responses)),
        ) || error.innermost() == PicocodexError::Response(
            ResponseError::Boxed(ResponsesServiceError::Responses(responses)),
        )),
{
    lemma_response_is_the_single_failure_boundary(error);
    lemma_only_service_failures_expose_responses_errors_at(error.innermost(), responses);
}

/// Wrapping an error in a shared shutdown failure hides nothing: the wrapper
/// exposes the same Responses failure as the error it shares, ends in the same
/// error, and is described by the same text.
pub proof fn lemma_shutdown_is_transparent(shared: Arc<PicocodexError>)
    ensures
        forall|text: Seq<char>|
            PicocodexError::Shutdown(shared).describes(text) == (*shared).describes(text),
        PicocodexError::Shutdown(shared).spec_responses_error() == (*shared).spec_responses_error(),
        PicocodexError::Shutdown(shared).innermost() == (*shared).innermost(),
{
}

/// For a failed Responses operation, which Responses failure it exposes.
proof fn lemma_only_service_failures_expose_responses_errors_at(
    error: PicocodexError,
    responses: ResponsesError,
)
    ensures
        (match error {
            PicocodexError::Response(operation) => operation.spec_responses_error(),
            _ => None,
        }) == Some(responses) <==> (error == PicocodexError::Response(
            ResponseError::Service(ResponsesServiceError::Responses(responses)),
        ) || error == PicocodexError::Response(
            ResponseError::Boxed(ResponsesServiceError::Responses(responses)),
        )),
{
}

} // verus!
