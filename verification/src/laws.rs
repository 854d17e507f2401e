//! What holds of every call, whatever the prompt and whatever the service
//! answers. Each law is stated over the functions by which the contracts of
//! [`OpenAIService`](crate::open_ai::OpenAIService) say what a call does.

use crate::error::ChatFailure;
use crate::http::{ExchangeView, CONTENT_TYPE, ENDPOINT};
use crate::model::{MessageView, Role};
use crate::open_ai::{answer_to, request_for, succeeded, MODEL};
use crate::outside::json_object;
use crate::wire::response_of;
use vstd::prelude::*;
use vstd::utf8::*;

verus! {

/// The request for a prompt carries exactly one message, in which the user
/// says the prompt; it asks for the fixed model and goes to the fixed
/// endpoint.
pub proof fn law_request_holds_the_prompt(credential: Seq<char>, prompt: Seq<char>)
    ensures
        request_for(credential, prompt).payload.messages.len() == 1,
        request_for(credential, prompt).payload.messages[0] == (MessageView {
            role: Role::User,
            content: prompt,
        }),
        request_for(credential, prompt).payload.model == MODEL@,
        request_for(credential, prompt).url == ENDPOINT@,
        request_for(credential, prompt).content_type == CONTENT_TYPE@,
        request_for(credential, prompt).authorization == "Bearer "@ + credential,
{
}

/// An exchange that brought no answer is a `TransportFailure`, with the
/// reason it gives.
pub proof fn law_no_answer_is_transport_failure(reason: Seq<char>)
    ensures
        answer_to(ExchangeView::Failed { reason }) == Err::<Seq<char>, ChatFailure>(
            ChatFailure::TransportFailure { reason },
        ),
{
}

/// An answer whose status is not one of success is an `UpstreamStatus` that
/// carries the status and the body, whatever the body holds.
pub proof fn law_failing_status_is_upstream_status(status: u16, body: Seq<u8>)
    requires
        !succeeded(status),
    ensures
        answer_to(ExchangeView::Answered { status, body }) == Err::<Seq<char>, ChatFailure>(
            ChatFailure::UpstreamStatus { status, body },
        ),
{
}

/// A successful answer whose body is not UTF-8, or is not the text of a JSON
/// object, is a `MalformedResponse`.
pub proof fn law_unreadable_body_is_malformed(status: u16, body: Seq<u8>)
    requires
        succeeded(status),
        !valid_utf8(body) || json_object(decode_utf8(body)) is None,
    ensures
        answer_to(ExchangeView::Answered { status, body }) == Err::<Seq<char>, ChatFailure>(
            ChatFailure::MalformedResponse,
        ),
{
}

/// A successful answer that reads as a response without choices is an
/// `EmptyCompletion`.
pub proof fn law_no_choice_is_empty_completion(status: u16, body: Seq<u8>)
    requires
        succeeded(status),
        valid_utf8(body),
        response_of(decode_utf8(body)) matches Some(response) && response.choices.len() == 0,
    ensures
        answer_to(ExchangeView::Answered { status, body }) == Err::<Seq<char>, ChatFailure>(
            ChatFailure::EmptyCompletion,
        ),
{
}

/// A successful answer that reads as a response with at least one choice is
/// worth the content of the first choice, whatever the others hold.
pub proof fn law_first_choice_is_the_reply(status: u16, body: Seq<u8>)
    requires
        succeeded(status),
        valid_utf8(body),
        response_of(decode_utf8(body)) matches Some(response) && response.choices.len() > 0,
    ensures
        answer_to(ExchangeView::Answered { status, body }) == Ok::<Seq<char>, ChatFailure>(
            response_of(decode_utf8(body))->0.choices[0].message.content,
        ),
{
}

/// Every role is read back from its own word: no two roles share one.
pub proof fn law_role_reads_back(role: Role)
    ensures
        Role::from_text(role.text()) == Some(role),
{
    reveal_strlit("user");
    reveal_strlit("system");
    reveal_strlit("assistant");
    assert("user"@.len() == 4);
    assert("system"@.len() == 6);
    assert("assistant"@.len() == 9);
}

} // verus!
