//! The ways in which a request for a completion can fail.

use vstd::prelude::*;

verus! {

/// Why no reply text came out of a call.
#[derive(Debug, Clone, PartialEq, Eq)]
pub enum ChatError {
    /// The prompt was empty; nothing was sent.
    InvalidInput,
    /// The exchange with the service could not be completed.
    TransportFailure { reason: String },
    /// The service answered with a status outside the 2xx range.
    UpstreamStatus { status: u16, body: Vec<u8> },
    /// The body of a successful answer does not have the expected shape.
    MalformedResponse,
    /// The answer was well formed but offered no choice.
    EmptyCompletion,
}

/// The mathematical content of a [`ChatError`].
pub enum ChatFailure {
    InvalidInput,
    TransportFailure { reason: Seq<char> },
    UpstreamStatus { status: u16, body: Seq<u8> },
    MalformedResponse,
    EmptyCompletion,
}

impl View for ChatError {
    type V = ChatFailure;

    open spec fn view(&self) -> ChatFailure {
        match *self {
            ChatError::InvalidInput => ChatFailure::InvalidInput,
            ChatError::TransportFailure { reason } => ChatFailure::TransportFailure {
                reason: reason@,
            },
            ChatError::UpstreamStatus { status, body } => ChatFailure::UpstreamStatus {
                status,
                body: body@,
            },
            ChatError::MalformedResponse => ChatFailure::MalformedResponse,
            ChatError::EmptyCompletion => ChatFailure::EmptyCompletion,
        }
    }
}

/// Whether a result is the failure given.
pub open spec fn fails_with<T>(result: Result<T, ChatError>, failure: ChatFailure) -> bool {
    result matches Err(error) && error@ == failure
}

/// Whether a result is the reply text given.
pub open spec fn replies_with(result: Result<String, ChatError>, text: Seq<char>) -> bool {
    result matches Ok(reply) && reply@ == text
}

} // verus!
