//! How requests are written as JSON text and answers are read from it.
//!
//! A request is written as
//! `{"model":M,"messages":[{"role":R,"content":C},...]}` where `M`, `R` and
//! `C` are JSON string literals. An answer is a JSON object with the members
//! `id` and `object`, both strings, and `choices`, an array of objects whose
//! member `message` is an object with the string members `role` and
//! `content`. Members beyond these are passed over.

use crate::model::{
    ChatCompletion, ChatCompletionResponse, ChatCompletionResponseView, ChatCompletionView,
    Choice, ChoiceView, Message, MessageView, Role,
};
use crate::outside::{
    json_array, json_object, json_quoted, json_string, read_array, read_object, read_string,
    write_string,
};
use crate::text::same_text;
use vstd::prelude::*;
use vstd::string::*;

verus! {

/// The parts put one after the other, with the separator between any two
/// neighbours.
pub open spec fn joined(parts: Seq<Seq<char>>, separator: Seq<char>) -> Seq<char>
    decreases parts.len(),
{
    if parts.len() == 0 {
        Seq::empty()
    } else if parts.len() == 1 {
        parts[0]
    } else {
        joined(parts.drop_last(), separator) + separator + parts.last()
    }
}

/// A message written around the literals of its role and content.
pub open spec fn message_frame(role: Seq<char>, content: Seq<char>) -> Seq<char> {
    "{\"role\":"@ + role + ",\"content\":"@ + content + "}"@
}

/// A request written around the literal of its model and the texts of its
/// messages.
pub open spec fn request_frame(model: Seq<char>, messages: Seq<Seq<char>>) -> Seq<char> {
    "{\"model\":"@ + model + ",\"messages\":["@ + joined(messages, ","@) + "]}"@
}

/// The JSON text of a message, where its role and content can be quoted.
pub open spec fn message_json(message: MessageView) -> Option<Seq<char>> {
    match (json_quoted(message.role.text()), json_quoted(message.content)) {
        (Some(role), Some(content)) => Some(message_frame(role, content)),
        _ => None,
    }
}

/// The JSON texts of the messages, where each of them has one.
pub open spec fn messages_json(messages: Seq<MessageView>) -> Option<Seq<Seq<char>>> {
    if forall|i: int| 0 <= i < messages.len() ==> (#[trigger] message_json(messages[i])) is Some {
        Some(messages.map_values(|m: MessageView| message_json(m).unwrap()))
    } else {
        None
    }
}

/// The JSON text of a request, where its model and each message can be
/// written.
pub open spec fn request_json(request: ChatCompletionView) -> Option<Seq<char>> {
    match (json_quoted(request.model), messages_json(request.messages)) {
        (Some(model), Some(messages)) => Some(request_frame(model, messages)),
        _ => None,
    }
}

/// The text of the first member with the given key.
pub open spec fn member(members: Seq<(Seq<char>, Seq<char>)>, key: Seq<char>) -> Option<
    Seq<char>,
>
    decreases members.len(),
{
    if members.len() == 0 {
        None
    } else if members.first().0 == key {
        Some(members.first().1)
    } else {
        member(members.drop_first(), key)
    }
}

/// The string held by the first member with the given key, where there is
/// such a member and it holds a string.
pub open spec fn string_member(members: Seq<(Seq<char>, Seq<char>)>, key: Seq<char>) -> Option<
    Seq<char>,
> {
    match member(members, key) {
        Some(text) => json_string(text),
        None => None,
    }
}

/// The message that a JSON text describes: an object whose `role` is the
/// word of a role and whose `content` is a string.
pub open spec fn message_of(text: Seq<char>) -> Option<MessageView> {
    match json_object(text) {
        Some(members) => match (
            string_member(members, "role"@),
            string_member(members, "content"@),
        ) {
            (Some(word), Some(content)) => match Role::from_text(word) {
                Some(role) => Some(MessageView { role, content }),
                None => None,
            },
            _ => None,
        },
        None => None,
    }
}

/// The choice that a JSON text describes: an object whose `message`
/// describes a message.
pub open spec fn choice_of(text: Seq<char>) -> Option<ChoiceView> {
    match json_object(text) {
        Some(members) => match member(members, "message"@) {
            Some(inner) => match message_of(inner) {
                Some(message) => Some(ChoiceView { message }),
                None => None,
            },
            None => None,
        },
        None => None,
    }
}

/// The choices that the texts describe, where each of them describes one.
pub open spec fn choices_of(items: Seq<Seq<char>>) -> Option<Seq<ChoiceView>> {
    if forall|i: int| 0 <= i < items.len() ==> (#[trigger] choice_of(items[i])) is Some {
        Some(items.map_values(|item: Seq<char>| choice_of(item).unwrap()))
    } else {
        None
    }
}

/// The answer that a JSON text describes: an object whose `id` and `object`
/// are strings and whose `choices` is an array of choices.
pub open spec fn response_of(text: Seq<char>) -> Option<ChatCompletionResponseView> {
    match json_object(text) {
        Some(members) => match (
            string_member(members, "id"@),
            string_member(members, "object"@),
            member(members, "choices"@),
        ) {
            (Some(id), Some(object), Some(list)) => match json_array(list) {
                Some(items) => match choices_of(items) {
                    Some(choices) => Some(ChatCompletionResponseView { id, object, choices }),
                    None => None,
                },
                None => None,
            },
            _ => None,
        },
        None => None,
    }
}

/// Puts the parts one after the other, with the separator between any two
/// neighbours.
pub fn join(parts: &Vec<String>, separator: &str) -> (text: String)
    ensures
        text@ == joined(parts.deep_view(), separator@),
{
    let ghost all = parts.deep_view();
    let mut text = String::new();
    let mut i: usize = 0;
    while i < parts.len()
        invariant
            i <= parts.len(),
            all == parts.deep_view(),
            text@ == joined(all.take(i as int), separator@),
        decreases parts.len() - i,
    {
        proof {
            assert(all.take(i + 1).drop_last() =~= all.take(i as int));
            assert(all.take(i + 1).last() == parts[i as int]@);
        }
        if i > 0 {
            text.append(separator);
        }
        text.append(parts[i].as_str());
        i += 1;
    }
    assert(all.take(i as int) =~= all);
    text
}

/// Writes a message around the literals of its role and content.
pub fn frame_message(role: &str, content: &str) -> (text: String)
    ensures
        text@ == message_frame(role@, content@),
{
    let mut text = String::new();
    text.append("{\"role\":");
    text.append(role);
    text.append(",\"content\":");
    text.append(content);
    text.append("}");
    assert(text@ =~= message_frame(role@, content@));
    text
}

/// Writes a request around the literal of its model and the texts of its
/// messages.
pub fn frame_request(model: &str, messages: &Vec<String>) -> (text: String)
    ensures
        text@ == request_frame(model@, messages.deep_view()),
{
    let list = join(messages, ",");
    let mut text = String::new();
    text.append("{\"model\":");
    text.append(model);
    text.append(",\"messages\":[");
    text.append(list.as_str());
    text.append("]}");
    assert(text@ =~= request_frame(model@, messages.deep_view()));
    text
}

/// Looks a key up among the members of an object; the first member with that
/// key counts.
pub fn find_member<'a>(members: &'a Vec<(String, String)>, key: &str) -> (found: Option<
    &'a String,
>)
    ensures
        found.deep_view() == member(members.deep_view(), key@),
{
    let ghost all = members.deep_view();
    assert(all.skip(0) =~= all);
    let mut i: usize = 0;
    while i < members.len()
        invariant
            i <= members.len(),
            all == members.deep_view(),
            member(all, key@) == member(all.skip(i as int), key@),
        decreases members.len() - i,
    {
        proof {
            assert(all.skip(i as int).first() == all[i as int]);
            assert(all.skip(i as int).drop_first() =~= all.skip(i + 1));
        }
        if same_text(members[i].0.as_str(), key) {
            return Some(&members[i].1);
        }
        i += 1;
    }
    None
}

/// Looks a key up among the members of an object and reads the string that
/// the member holds.
pub fn find_string(members: &Vec<(String, String)>, key: &str) -> (found: Option<String>)
    ensures
        found.deep_view() == string_member(members.deep_view(), key@),
{
    match find_member(members, key) {
        Some(text) => match read_string(text.as_str()) {
            Ok(value) => Some(value),
            Err(_) => None,
        },
        None => None,
    }
}

impl Message {
    /// Writes the message as JSON text. `None` comes back only where
    /// `serde_json` cannot quote the role or the content.
    pub fn to_json(&self) -> (text: Option<String>)
        ensures
            text.deep_view() == message_json(self@),
    {
        let role = match write_string(self.role.as_str()) {
            Ok(role) => role,
            Err(_) => return None,
        };
        let content = match write_string(self.content.as_str()) {
            Ok(content) => content,
            Err(_) => return None,
        };
        Some(frame_message(role.as_str(), content.as_str()))
    }

    /// Reads a message from JSON text.
    pub fn from_json(text: &str) -> (message: Option<Message>)
        ensures
            message.deep_view() == message_of(text@),
    {
        let members = match read_object(text) {
            Ok(members) => members,
            Err(_) => return None,
        };
        let word = match find_string(&members, "role") {
            Some(word) => word,
            None => return None,
        };
        let content = match find_string(&members, "content") {
            Some(content) => content,
            None => return None,
        };
        match Role::parse(word.as_str()) {
            Some(role) => Some(Message { role, content }),
            None => None,
        }
    }
}

impl Choice {
    /// Reads a choice from JSON text.
    pub fn from_json(text: &str) -> (choice: Option<Choice>)
        ensures
            choice.deep_view() == choice_of(text@),
    {
        let members = match read_object(text) {
            Ok(members) => members,
            Err(_) => return None,
        };
        let inner = match find_member(&members, "message") {
            Some(inner) => inner,
            None => return None,
        };
        match Message::from_json(inner.as_str()) {
            Some(message) => Some(Choice { message }),
            None => None,
        }
    }
}

impl ChatCompletion {
    /// Writes the request as JSON text. `None` comes back only where
    /// `serde_json` cannot quote one of the strings in it.
    pub fn to_json(&self) -> (text: Option<String>)
        ensures
            text.deep_view() == request_json(self@),
    {
        let model = match write_string(self.model.as_str()) {
            Ok(model) => model,
            Err(_) => return None,
        };
        let ghost all = self.messages.deep_view();
        let mut texts: Vec<String> = Vec::new();
        let mut i: usize = 0;
        while i < self.messages.len()
            invariant
                i <= self.messages.len(),
                all == self.messages.deep_view(),
                texts.len() == i,
                forall|j: int| 0 <= j < i ==> #[trigger] message_json(all[j]) == Some(texts[j]@),
            decreases self.messages.len() - i,
        {
            match self.messages[i].to_json() {
                Some(text) => texts.push(text),
                None => {
                    assert(message_json(all[i as int]) is None);
                    return None;
                },
            }
            i += 1;
        }
        assert(texts.deep_view() =~= all.map_values(|m: MessageView| message_json(m).unwrap()));
        Some(frame_request(model.as_str(), &texts))
    }
}

impl ChatCompletionResponse {
    /// Reads an answer from JSON text.
    #[verifier::loop_isolation(false)]
    pub fn from_json(text: &str) -> (response: Option<ChatCompletionResponse>)
        ensures
            response.deep_view() == response_of(text@),
    {
        let members = match read_object(text) {
            Ok(members) => members,
            Err(_) => return None,
        };
        let id = match find_string(&members, "id") {
            Some(id) => id,
            None => return None,
        };
        let object = match find_string(&members, "object") {
            Some(object) => object,
            None => return None,
        };
        let list = match find_member(&members, "choices") {
            Some(list) => list,
            None => return None,
        };
        let items = match read_array(list.as_str()) {
            Ok(items) => items,
            Err(_) => return None,
        };
        let ghost texts = items.deep_view();
        let mut choices: Vec<Choice> = Vec::new();
        let mut i: usize = 0;
        while i < items.len()
            invariant
                i <= items.len(),
                texts == items.deep_view(),
                choices.len() == i,
                forall|j: int| 0 <= j < i ==> #[trigger] choice_of(texts[j]) == Some(choices[j]@),
            decreases items.len() - i,
        {
            match Choice::from_json(items[i].as_str()) {
                Some(choice) => choices.push(choice),
                None => {
                    assert(choice_of(texts[i as int]) is None);
                    return None;
                },
            }
            assert(texts[i as int] == items[i as int]@);
            i += 1;
        }
        assert(choices.deep_view() =~= texts.map_values(
            |item: Seq<char>| choice_of(item).unwrap(),
        ));
        Some(ChatCompletionResponse { id, object, choices })
    }
}

} // verus!
