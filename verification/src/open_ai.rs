//! The client: from a prompt to a request, and from an exchange to a reply.

use crate::error::{fails_with, replies_with, ChatError, ChatFailure};
use crate::http::{Exchange, ExchangeView, PostRequest, PostRequestView, CONTENT_TYPE, ENDPOINT};
use crate::model::{
    ChatCompletion, ChatCompletionResponse, ChatCompletionResponseView, ChatCompletionView,
    Message, MessageView, Role,
};
use crate::outside::read_utf8;
use crate::wire::response_of;
use vstd::prelude::*;
use vstd::string::*;
use vstd::utf8::*;

verus! {

/// The model that every request asks for.
pub const MODEL: &'static str = "gpt-3.5-turbo";

/// The request payload for a prompt: the fixed model and one message, in
/// which the user says the prompt.
pub open spec fn completion_for(prompt: Seq<char>) -> ChatCompletionView {
    ChatCompletionView {
        model: MODEL@,
        messages: seq![MessageView { role: Role::User, content: prompt }],
    }
}

/// The request that a client with the given credential sends for a prompt.
pub open spec fn request_for(credential: Seq<char>, prompt: Seq<char>) -> PostRequestView {
    PostRequestView {
        url: ENDPOINT@,
        authorization: "Bearer "@ + credential,
        content_type: CONTENT_TYPE@,
        payload: completion_for(prompt),
    }
}

/// Whether a status is one of success, that is of the 2xx range.
pub open spec fn succeeded(status: u16) -> bool {
    200 <= status <= 299
}

/// What an answer is worth: the content of its first choice, or
/// `EmptyCompletion` where it has none.
pub open spec fn first_reply_of(response: ChatCompletionResponseView) -> Result<
    Seq<char>,
    ChatFailure,
> {
    if response.choices.len() == 0 {
        Err(ChatFailure::EmptyCompletion)
    } else {
        Ok(response.choices[0].message.content)
    }
}

/// What the body of a successful answer is worth: `MalformedResponse` where
/// it is not UTF-8 or does not read as an answer, else what the answer is
/// worth.
pub open spec fn completion_in(body: Seq<u8>) -> Result<Seq<char>, ChatFailure> {
    if !valid_utf8(body) {
        Err(ChatFailure::MalformedResponse)
    } else {
        match response_of(decode_utf8(body)) {
            Some(response) => first_reply_of(response),
            None => Err(ChatFailure::MalformedResponse),
        }
    }
}

/// What an exchange is worth to the caller.
pub open spec fn answer_to(exchange: ExchangeView) -> Result<Seq<char>, ChatFailure> {
    match exchange {
        ExchangeView::Failed { reason } => Err(ChatFailure::TransportFailure { reason }),
        ExchangeView::Answered { status, body } => if succeeded(status) {
            completion_in(body)
        } else {
            Err(ChatFailure::UpstreamStatus { status, body })
        },
    }
}

/// The mathematical content of what a call returns.
pub open spec fn outcome(result: Result<String, ChatError>) -> Result<Seq<char>, ChatFailure> {
    match result {
        Ok(text) => Ok(text@),
        Err(error) => Err(error@),
    }
}

/// Whether a status is one of success, that is of the 2xx range.
pub fn is_success(status: u16) -> (yes: bool)
    ensures
        yes == succeeded(status),
{
    200 <= status && status <= 299
}

/// The content of the first choice of an answer; `EmptyCompletion` where the
/// answer has no choice.
pub fn first_reply(response: &ChatCompletionResponse) -> (result: Result<String, ChatError>)
    ensures
        outcome(result) == first_reply_of(response@),
        response.choices.len() == 0 ==> fails_with(result, ChatFailure::EmptyCompletion),
        response.choices.len() > 0 ==> replies_with(result, response.choices[0].message.content@),
{
    if response.choices.len() == 0 {
        Err(ChatError::EmptyCompletion)
    } else {
        Ok(response.choices[0].message.content.clone())
    }
}

impl ChatCompletion {
    /// The request payload for a prompt.
    pub fn from_prompt(prompt: &str) -> (request: ChatCompletion)
        ensures
            request@ == completion_for(prompt@),
            request@.well_formed(),
            request.model@ == MODEL@,
            request.messages.len() == 1,
            request.messages[0]@ == (MessageView { role: Role::User, content: prompt@ }),
    {
        let mut messages: Vec<Message> = Vec::new();
        messages.push(Message { role: Role::User, content: prompt.to_owned() });
        let request = ChatCompletion { model: MODEL.to_owned(), messages };
        assert(request@.messages =~= completion_for(prompt@).messages);
        request
    }
}

/// A client of the chat-completion service. It holds the credential and
/// nothing else, so one client serves any number of calls.
#[derive(Clone)]
pub struct OpenAIService {
    api_key: String,
}

impl View for OpenAIService {
    type V = Seq<char>;

    /// The credential.
    closed spec fn view(&self) -> Seq<char> {
        self.api_key@
    }
}

impl OpenAIService {
    /// A client that presents the given credential. The credential is taken
    /// as it is.
    pub fn new(api_key: String) -> (service: OpenAIService)
        ensures
            service@ == api_key@,
    {
        OpenAIService { api_key }
    }

    /// The request that asks for a completion of the prompt. An empty prompt
    /// is refused with `InvalidInput`; for any other there is a request,
    /// whose payload holds one message, said by the user, with the prompt as
    /// its content.
    pub fn request(&self, prompt: &str) -> (request: Result<PostRequest, ChatError>)
        ensures
            prompt@.len() == 0 ==> fails_with(request, ChatFailure::InvalidInput),
            prompt@.len() > 0 ==> request is Ok,
            request matches Ok(post) ==> {
                &&& post@ == request_for(self@, prompt@)
                &&& post@.payload.well_formed()
                &&& post.payload.messages.len() == 1
                &&& post.payload.messages[0]@ == (MessageView {
                    role: Role::User,
                    content: prompt@,
                })
            },
    {
        if prompt.is_empty() {
            return Err(ChatError::InvalidInput);
        }
        let mut authorization = "Bearer ".to_owned();
        authorization.append(self.api_key.as_str());
        Ok(
            PostRequest {
                url: ENDPOINT.to_owned(),
                authorization,
                content_type: CONTENT_TYPE.to_owned(),
                payload: ChatCompletion::from_prompt(prompt),
            },
        )
    }

    /// What an exchange is worth: the reply text, or the reason why there is
    /// none.
    pub fn reply(exchange: Exchange) -> (result: Result<String, ChatError>)
        ensures
            outcome(result) == answer_to(exchange@),
            exchange@ matches ExchangeView::Failed { reason } ==> fails_with(
                result,
                ChatFailure::TransportFailure { reason },
            ),
            exchange@ matches ExchangeView::Answered { status, body } ==> {
                &&& !succeeded(status) ==> fails_with(
                    result,
                    ChatFailure::UpstreamStatus { status, body },
                )
                &&& succeeded(status) && !valid_utf8(body) ==> fails_with(
                    result,
                    ChatFailure::MalformedResponse,
                )
                &&& succeeded(status) && valid_utf8(body) ==> match response_of(
                    decode_utf8(body),
                ) {
                    None => fails_with(result, ChatFailure::MalformedResponse),
                    Some(response) => if response.choices.len() == 0 {
                        fails_with(result, ChatFailure::EmptyCompletion)
                    } else {
                        replies_with(result, response.choices[0].message.content)
                    },
                }
            },
    {
        match exchange {
            Exchange::Failed { reason } => Err(ChatError::TransportFailure { reason }),
            Exchange::Answered { status, body } => {
                if !is_success(status) {
                    return Err(ChatError::UpstreamStatus { status, body });
                }
                let text = match read_utf8(body.as_slice()) {
                    Ok(text) => text,
                    Err(_) => return Err(ChatError::MalformedResponse),
                };
                proof {
                    broadcast use encode_utf8_decode_utf8;

                    assert(decode_utf8(text.spec_bytes()) == text@);
                }
                match ChatCompletionResponse::from_json(text) {
                    Some(response) => first_reply(&response),
                    None => Err(ChatError::MalformedResponse),
                }
            },
        }
    }

    /// One call: the request for the prompt is handed to `transport`, once,
    /// and what comes back decides the result. For an empty prompt the
    /// result is `InvalidInput`.
    pub fn chat<F>(&self, prompt: &str, transport: F) -> (result: Result<String, ChatError>) where
        F: FnOnce(PostRequest) -> Exchange,

        requires
            forall|post: PostRequest|
                post@ == request_for(self@, prompt@) ==> call_requires(transport, (post,)),
        ensures
            prompt@.len() == 0 ==> fails_with(result, ChatFailure::InvalidInput),
            prompt@.len() > 0 ==> exists|post: PostRequest, exchange: Exchange|
                post@ == request_for(self@, prompt@) && call_ensures(
                    transport,
                    (post,),
                    exchange,
                ) && outcome(result) == answer_to(exchange@),
    {
        let post = match self.request(prompt) {
            Ok(post) => post,
            Err(error) => return Err(error),
        };
        let ghost sent = post;
        let exchange = transport(post);
        let ghost received = exchange;
        let result = OpenAIService::reply(exchange);
        assert(sent@ == request_for(self@, prompt@) && call_ensures(transport, (sent,), received)
            && outcome(result) == answer_to(received@));
        result
    }
}

} // verus!
