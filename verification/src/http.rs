//! The two values that cross the line between this library and whatever
//! carries its requests: the request that is to be sent, and what became of
//! it.

use crate::model::{ChatCompletion, ChatCompletionView};
use vstd::prelude::*;

verus! {

/// Where requests for a completion are posted.
pub const ENDPOINT: &'static str = "https://api.openai.com/v1/chat/completions";

/// The media type of every request body.
pub const CONTENT_TYPE: &'static str = "application/json";

/// An HTTP `POST` that is ready to be sent.
///
/// The body of the request is the JSON text of `payload`, as
/// [`ChatCompletion::to_json`] writes it.
#[derive(Debug, Clone, PartialEq, Eq)]
pub struct PostRequest {
    pub url: String,
    /// The value of the `Authorization` header.
    pub authorization: String,
    /// The value of the `Content-Type` header.
    pub content_type: String,
    pub payload: ChatCompletion,
}

/// What became of a request.
#[derive(Debug, Clone, PartialEq, Eq)]
pub enum Exchange {
    /// No answer was received.
    Failed { reason: String },
    /// The service answered with this status and these bytes as body.
    Answered { status: u16, body: Vec<u8> },
}

/// The mathematical content of a [`PostRequest`].
pub struct PostRequestView {
    pub url: Seq<char>,
    pub authorization: Seq<char>,
    pub content_type: Seq<char>,
    pub payload: ChatCompletionView,
}

/// The mathematical content of an [`Exchange`].
pub enum ExchangeView {
    Failed { reason: Seq<char> },
    Answered { status: u16, body: Seq<u8> },
}

impl View for PostRequest {
    type V = PostRequestView;

    open spec fn view(&self) -> PostRequestView {
        PostRequestView {
            url: self.url@,
            authorization: self.authorization@,
            content_type: self.content_type@,
            payload: self.payload@,
        }
    }
}

impl View for Exchange {
    type V = ExchangeView;

    open spec fn view(&self) -> ExchangeView {
        match *self {
            Exchange::Failed { reason } => ExchangeView::Failed { reason: reason@ },
            Exchange::Answered { status, body } => ExchangeView::Answered { status, body: body@ },
        }
    }
}

} // verus!
