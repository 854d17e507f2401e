//! The core of a client for a hosted chat-completion service, written without
//! any I/O of its own.
//!
//! An [`OpenAIService`] holds a credential. From a prompt it prepares the one
//! HTTP request that asks for a completion, and from what came back over the
//! wire it works out the reply text or the reason there is none. Sending the
//! request is left to the caller, who hands the outcome back as an
//! [`Exchange`].
//!
//! JSON text is written and read through `serde_json`, one layer at a time;
//! the module [`outside`] holds everything that is taken on trust.

pub mod error;
pub mod http;
pub mod laws;
pub mod model;
pub mod open_ai;
pub mod outside;
pub mod text;
pub mod wire;

pub use error::{ChatError, ChatFailure};
pub use http::{Exchange, PostRequest, CONTENT_TYPE, ENDPOINT};
pub use model::{ChatCompletion, ChatCompletionResponse, Choice, Message, Role};
pub use open_ai::{first_reply, is_success, OpenAIService, MODEL};
