//! The messages that go to the service and come back from it.

use crate::text::same_text;
use vstd::prelude::*;

verus! {

/// Who is speaking in a [`Message`].
#[derive(Debug, Clone, Copy, PartialEq, Eq, Structural)]
pub enum Role {
    User,
    System,
    Assistant,
}

/// One turn of a conversation.
#[derive(Debug, Clone, PartialEq, Eq)]
pub struct Message {
    pub role: Role,
    pub content: String,
}

/// The payload of a request: a model and the conversation so far.
#[derive(Debug, Clone, PartialEq, Eq)]
pub struct ChatCompletion {
    pub model: String,
    pub messages: Vec<Message>,
}

/// One of the replies that the service offers.
#[derive(Debug, Clone, PartialEq, Eq)]
pub struct Choice {
    pub message: Message,
}

/// The payload of a successful answer.
#[derive(Debug, Clone, PartialEq, Eq)]
pub struct ChatCompletionResponse {
    pub id: String,
    pub object: String,
    pub choices: Vec<Choice>,
}

impl Role {
    /// The word that stands for this role on the wire.
    pub open spec fn text(self) -> Seq<char> {
        match self {
            Role::User => "user"@,
            Role::System => "system"@,
            Role::Assistant => "assistant"@,
        }
    }

    /// The role that a word stands for, if it stands for one.
    pub open spec fn from_text(text: Seq<char>) -> Option<Role> {
        if text == "user"@ {
            Some(Role::User)
        } else if text == "system"@ {
            Some(Role::System)
        } else if text == "assistant"@ {
            Some(Role::Assistant)
        } else {
            None
        }
    }

    /// The word that stands for this role on the wire.
    pub fn as_str(&self) -> (text: &'static str)
        ensures
            text@ == self.text(),
    {
        match self {
            Role::User => "user",
            Role::System => "system",
            Role::Assistant => "assistant",
        }
    }

    /// Reads a role from its word; any other word gives `None`.
    pub fn parse(text: &str) -> (role: Option<Role>)
        ensures
            role == Role::from_text(text@),
    {
        if same_text(text, "user") {
            Some(Role::User)
        } else if same_text(text, "system") {
            Some(Role::System)
        } else if same_text(text, "assistant") {
            Some(Role::Assistant)
        } else {
            None
        }
    }
}

/// The mathematical content of a [`Message`].
pub struct MessageView {
    pub role: Role,
    pub content: Seq<char>,
}

/// The mathematical content of a [`ChatCompletion`].
pub struct ChatCompletionView {
    pub model: Seq<char>,
    pub messages: Seq<MessageView>,
}

impl ChatCompletionView {
    /// What every request that leaves a client meets: something is said in
    /// it.
    pub open spec fn well_formed(self) -> bool {
        self.messages.len() > 0
    }
}

/// The mathematical content of a [`Choice`].
pub struct ChoiceView {
    pub message: MessageView,
}

/// The mathematical content of a [`ChatCompletionResponse`].
pub struct ChatCompletionResponseView {
    pub id: Seq<char>,
    pub object: Seq<char>,
    pub choices: Seq<ChoiceView>,
}

impl View for Message {
    type V = MessageView;

    open spec fn view(&self) -> MessageView {
        MessageView { role: self.role, content: self.content@ }
    }
}

impl DeepView for Message {
    type V = MessageView;

    open spec fn deep_view(&self) -> MessageView {
        self@
    }
}

impl View for ChatCompletion {
    type V = ChatCompletionView;

    open spec fn view(&self) -> ChatCompletionView {
        ChatCompletionView { model: self.model@, messages: self.messages.deep_view() }
    }
}

impl DeepView for ChatCompletion {
    type V = ChatCompletionView;

    open spec fn deep_view(&self) -> ChatCompletionView {
        self@
    }
}

impl View for Choice {
    type V = ChoiceView;

    open spec fn view(&self) -> ChoiceView {
        ChoiceView { message: self.message@ }
    }
}

impl DeepView for Choice {
    type V = ChoiceView;

    open spec fn deep_view(&self) -> ChoiceView {
        self@
    }
}

impl View for ChatCompletionResponse {
    type V = ChatCompletionResponseView;

    open spec fn view(&self) -> ChatCompletionResponseView {
        ChatCompletionResponseView {
            id: self.id@,
            object: self.object@,
            choices: self.choices.deep_view(),
        }
    }
}

impl DeepView for ChatCompletionResponse {
    type V = ChatCompletionResponseView;

    open spec fn deep_view(&self) -> ChatCompletionResponseView {
        self@
    }
}

} // verus!
