use std::sync::Arc;

use picocodex::error::{EventError, PicocodexError, ToolsBuildError};
use picocodex::responses::{ResponseError, ResponsesError, ResponsesServiceError};

#[test]
fn response_error_is_the_single_provider_failure_boundary() {
    let service = PicocodexError::Response(ResponseError::from(ResponsesServiceError::from(
        ResponsesError::UnexpectedEnd,
    )));
    assert!(matches!(
        service.responses_error(),
        Some(ResponsesError::UnexpectedEnd)
    ));

    let service = ResponsesServiceError::from(ResponsesError::UnexpectedEnd);
    let error = PicocodexError::Response(ResponseError::Boxed(service));
    assert!(matches!(
        error.responses_error(),
        Some(ResponsesError::UnexpectedEnd)
    ));
    assert_eq!(
        error.message(),
        "Responses WebSocket closed without a close frame"
    );
}

#[test]
fn shutdown_exposes_the_shared_responses_failure() {
    let shared = Arc::new(PicocodexError::Response(ResponseError::Service(
        ResponsesServiceError::Responses(ResponsesError::UnexpectedEnd),
    )));
    let once = PicocodexError::Shutdown(Arc::clone(&shared));
    assert_eq!(once.responses_error(), Some(&ResponsesError::UnexpectedEnd));
    let twice = PicocodexError::Shutdown(Arc::new(once));
    assert_eq!(twice.responses_error(), Some(&ResponsesError::UnexpectedEnd));
    assert_eq!(
        twice.message(),
        "Responses WebSocket closed without a close frame"
    );
}

#[test]
fn other_errors_expose_no_responses_failure() {
    let middleware = PicocodexError::Response(ResponseError::Other("rate limited by proxy".to_owned()));
    assert_eq!(middleware.responses_error(), None);
    assert_eq!(middleware.message(), "rate limited by proxy");

    let cases = vec![
        PicocodexError::AgentStopped,
        PicocodexError::TurnCancelled,
        PicocodexError::TokioRuntimeUnavailable,
        PicocodexError::InvalidRequest("bad".to_owned()),
        PicocodexError::Shutdown(Arc::new(PicocodexError::TurnStopped)),
        PicocodexError::Event(EventError { detail: "event".to_owned() }),
    ];
    for case in &cases {
        assert_eq!(case.responses_error(), None);
    }
}

#[test]
fn messages_follow_the_error_texts() {
    assert_eq!(
        PicocodexError::InvalidRequest("two policies conflict".to_owned()).message(),
        "invalid task request: two policies conflict"
    );
    assert_eq!(
        PicocodexError::WorkspaceChanged {
            current: "/a".to_owned(),
            requested: "/b".to_owned(),
        }
        .message(),
        "an active agent session cannot change workspace from /a to /b"
    );
    assert_eq!(
        PicocodexError::MalformedResponse { detail: "missing output" }.message(),
        "malformed Responses API event: missing output"
    );
    assert_eq!(
        PicocodexError::InvalidAttemptState { detail: "compaction" }.message(),
        "invalid Responses attempt state: compaction"
    );
    assert_eq!(
        PicocodexError::WorkspaceNotDirectory {
            path: std::path::PathBuf::from("/tmp/file"),
        }
        .message(),
        "task workspace is not a directory: /tmp/file"
    );
    assert_eq!(
        PicocodexError::WorkspaceNotUtf8 {
            path: std::path::PathBuf::from("/tmp/x"),
        }
        .message(),
        "task workspace path is not valid UTF-8: /tmp/x"
    );
    let resolve = PicocodexError::ResolveWorkspace {
        path: std::path::PathBuf::from("/missing"),
        source: std::io::Error::new(std::io::ErrorKind::NotFound, "not there"),
    };
    assert_eq!(
        resolve.message(),
        "failed to resolve task workspace /missing: not there"
    );
    assert_eq!(
        PicocodexError::AgentStopped.message(),
        "the agent stopped before accepting the command"
    );
    assert_eq!(
        PicocodexError::TurnStopped.message(),
        "the agent stopped before the turn completed"
    );
    assert_eq!(
        PicocodexError::TurnNotSteerable.message(),
        "the targeted turn is queued, completed, or otherwise not active for steering"
    );
    assert_eq!(
        PicocodexError::SteerQueueFull.message(),
        "the active turn's steering queue is full"
    );
    assert_eq!(
        PicocodexError::TurnNotCancellable.message(),
        "the targeted turn has already completed or been cancelled"
    );
    assert_eq!(PicocodexError::TurnCancelled.message(), "the turn was cancelled");
    assert_eq!(
        PicocodexError::ForkBeforeCompletedTurn.message(),
        "the agent has no safe conversation boundary to fork"
    );
    assert_eq!(
        PicocodexError::CheckpointLineageMismatch.message(),
        "the completed turn belongs to a different conversation lineage"
    );
    assert_eq!(
        PicocodexError::InvalidSessionSnapshot("does not match configured model".to_owned()).message(),
        "invalid session snapshot: does not match configured model"
    );
    assert_eq!(
        PicocodexError::TokioRuntimeUnavailable.message(),
        "building an agent requires an active Tokio runtime"
    );
    assert_eq!(
        PicocodexError::Event(EventError { detail: "event payload".to_owned() }).message(),
        "event payload"
    );
    assert_eq!(
        PicocodexError::Tools(ToolsBuildError { detail: "duplicate tool".to_owned() }).message(),
        "failed to build tools for an agent driver: duplicate tool"
    );
    let json = serde_json::from_str::<serde_json::Value>("{").unwrap_err();
    let expected = format!("failed to fingerprint the immutable prompt prefix: {}", json);
    assert_eq!(PicocodexError::SerializePromptPrefix(json).message(), expected);
}
