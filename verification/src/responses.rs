//! The Responses failures that the agent reports at its boundary.

use vstd::prelude::*;

verus! {

/// Transport or API failure of the Responses protocol.
#[derive(Debug, Clone, Copy, PartialEq, Eq, Structural)]
pub enum ResponsesError {
    /// The Responses WebSocket closed without a close frame.
    UnexpectedEnd,
}

/// The text that describes a Responses failure.
pub open spec fn responses_error_text(error: ResponsesError) -> Seq<char> {
    match error {
        ResponsesError::UnexpectedEnd => "Responses WebSocket closed without a close frame"@,
    }
}

impl ResponsesError {
    /// Describes the failure in words.
    pub fn message(&self) -> (text: String)
        ensures
            text@ == responses_error_text(*self),
    {
        match self {
            ResponsesError::UnexpectedEnd => "Responses WebSocket closed without a close frame".to_owned(),
        }
    }
}

/// Failure of the Tower service that performs Responses attempts.
#[derive(Debug, Clone, Copy, PartialEq, Eq, Structural)]
pub enum ResponsesServiceError {
    /// The underlying Responses transport or API failed.
    Responses(ResponsesError),
}

impl From<ResponsesError> for ResponsesServiceError {
    fn from(error: ResponsesError) -> (service: Self) {
        ResponsesServiceError::Responses(error)
    }
}

impl vstd::std_specs::convert::FromSpecImpl<ResponsesError> for ResponsesServiceError {
    open spec fn obeys_from_spec() -> bool {
        true
    }

    open spec fn from_spec(error: ResponsesError) -> Self {
        ResponsesServiceError::Responses(error)
    }
}

/// The text that describes a service failure.
pub open spec fn service_error_text(error: ResponsesServiceError) -> Seq<char> {
    match error {
        ResponsesServiceError::Responses(responses) => responses_error_text(responses),
    }
}

impl ResponsesServiceError {
    /// Describes the failure in words: that of the Responses failure it carries.
    pub fn message(&self) -> (text: String)
        ensures
            text@ == service_error_text(*self),
    {
        match self {
            ResponsesServiceError::Responses(responses) => responses.message(),
        }
    }
}

/// A complete Responses operation that failed.
#[derive(Debug, Clone, PartialEq, Eq)]
pub enum ResponseError {
    /// The standard service failed.
    Service(ResponsesServiceError),
    /// A caller-provided middleware boxed the standard service failure.
    Boxed(ResponsesServiceError),
    /// A caller-provided middleware failed in a way of its own, described by
    /// the text.
    Other(String),
}

impl From<ResponsesServiceError> for ResponseError {
    fn from(service: ResponsesServiceError) -> (error: Self) {
        ResponseError::Service(service)
    }
}

impl vstd::std_specs::convert::FromSpecImpl<ResponsesServiceError> for ResponseError {
    open spec fn obeys_from_spec() -> bool {
        true
    }

    open spec fn from_spec(service: ResponsesServiceError) -> Self {
        ResponseError::Service(service)
    }
}

/// The value behind an optional reference.
pub open spec fn option_value<T>(reference: Option<&T>) -> Option<T> {
    match reference {
        Some(value) => Some(*value),
        None => None,
    }
}

/// The text that describes a failed Responses operation: that of the service
/// failure behind it, or the middleware's own text.
pub open spec fn response_error_text(error: ResponseError) -> Seq<char> {
    match error {
        ResponseError::Service(service) => service_error_text(service),
        ResponseError::Boxed(service) => service_error_text(service),
        ResponseError::Other(text) => text@,
    }
}

impl ResponseError {
    /// The Responses transport or API failure behind this operation failure.
    pub open spec fn spec_responses_error(self) -> Option<ResponsesError> {
        match self {
            ResponseError::Service(ResponsesServiceError::Responses(error)) => Some(error),
            ResponseError::Boxed(ResponsesServiceError::Responses(error)) => Some(error),
            ResponseError::Other(_) => None,
        }
    }

    /// Returns the underlying Responses transport or API failure, whether the
    /// standard service reported it directly or a middleware boxed it.
    pub fn responses_error(&self) -> (found: Option<&ResponsesError>)
        ensures
            option_value(found) == self.spec_responses_error(),
    {
        match self {
            ResponseError::Service(ResponsesServiceError::Responses(error)) => Some(error),
            ResponseError::Boxed(ResponsesServiceError::Responses(error)) => Some(error),
            ResponseError::Other(_) => None,
        }
    }

    /// Describes the failure in words.
    pub fn message(&self) -> (text: String)
        ensures
            text@ == response_error_text(*self),
    {
        match self {
            ResponseError::Service(service) => service.message(),
            ResponseError::Boxed(service) => service.message(),
            ResponseError::Other(text) => text.clone(),
        }
    }
}

/// An operation failure exposes a Responses failure exactly when it is the
/// standard service's failure, reported directly or boxed by a middleware, and
/// then it exposes the Responses failure that the service reported. A
/// middleware's own failure exposes none, whatever its text.
pub proof fn lemma_only_service_failures_expose_responses_errors(
    error: ResponseError,
    responses: ResponsesError,
    text: String,
)
    ensures
        error.spec_responses_error() == Some(responses) <==> (error == ResponseError::Service(
            ResponsesServiceError::Responses(responses),
        ) || error == ResponseError::Boxed(ResponsesServiceError::Responses(responses))),
        error.spec_responses_error() is None <==> error is Other,
        ResponseError::Other(text).spec_responses_error() is None,
{
}

} // verus!
