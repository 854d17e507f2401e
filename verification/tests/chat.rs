use echo::{
    first_reply, is_success, ChatCompletion, ChatCompletionResponse, ChatError, Choice, Exchange,
    Message, OpenAIService, PostRequest, Role, CONTENT_TYPE, ENDPOINT, MODEL,
};

const WELL_FORMED: &str = r#"{
  "id": "chatcmpl-123",
  "object": "chat.completion",
  "created": 1677652288,
  "choices": [
    {
      "index": 0,
      "message": {"role": "assistant", "content": "hello"},
      "finish_reason": "stop"
    }
  ],
  "usage": {"prompt_tokens": 9, "completion_tokens": 12, "total_tokens": 21}
}"#;

fn service() -> OpenAIService {
    OpenAIService::new("sk-test".to_string())
}

fn answered(status: u16, body: &str) -> Exchange {
    Exchange::Answered { status, body: body.as_bytes().to_vec() }
}

#[test]
fn request_holds_one_user_message() {
    let post = service().request("Tell me a joke").unwrap();
    assert_eq!(post.payload.messages.len(), 1);
    assert_eq!(
        post.payload.messages[0],
        Message { role: Role::User, content: "Tell me a joke".to_string() }
    );
    assert_eq!(post.payload.model, "gpt-3.5-turbo");
}

#[test]
fn request_names_endpoint_and_headers() {
    let post = service().request("hi").unwrap();
    assert_eq!(post.url, "https://api.openai.com/v1/chat/completions");
    assert_eq!(post.url, ENDPOINT);
    assert_eq!(post.authorization, "Bearer sk-test");
    assert_eq!(post.content_type, "application/json");
    assert_eq!(post.content_type, CONTENT_TYPE);
    assert_eq!(MODEL, "gpt-3.5-turbo");
}

#[test]
fn request_takes_the_credential_as_it_is() {
    let post = OpenAIService::new(String::new()).request("hi").unwrap();
    assert_eq!(post.authorization, "Bearer ");
    let post = OpenAIService::new(" a b ".to_string()).request("hi").unwrap();
    assert_eq!(post.authorization, "Bearer  a b ");
}

#[test]
fn request_refuses_empty_prompt() {
    assert_eq!(service().request(""), Err(ChatError::InvalidInput));
}

#[test]
fn request_accepts_blank_prompt() {
    let post = service().request(" ").unwrap();
    assert_eq!(post.payload.messages[0].content, " ");
}

#[test]
fn from_prompt_builds_the_payload() {
    let payload = ChatCompletion::from_prompt("ping");
    assert_eq!(
        payload,
        ChatCompletion {
            model: "gpt-3.5-turbo".to_string(),
            messages: vec![Message { role: Role::User, content: "ping".to_string() }],
        }
    );
}

#[test]
fn chat_returns_first_choice_content() {
    let result = service().chat("say hello", |_post| answered(200, WELL_FORMED));
    assert_eq!(result, Ok("hello".to_string()));
}

#[test]
fn chat_hands_the_request_to_the_transport() {
    let client = service();
    let mut seen: Option<PostRequest> = None;
    let result = client.chat("say hello", |post| {
        seen = Some(post);
        answered(200, WELL_FORMED)
    });
    assert_eq!(result, Ok("hello".to_string()));
    assert_eq!(seen, Some(client.request("say hello").unwrap()));
}

#[test]
fn chat_with_empty_choices_is_empty_completion() {
    let body = r#"{"id": "x", "object": "chat.completion", "choices": []}"#;
    let result = service().chat("say hello", |_post| answered(200, body));
    assert_eq!(result, Err(ChatError::EmptyCompletion));
}

#[test]
fn chat_with_status_401_is_upstream_status() {
    let body = r#"{"error": {"message": "Incorrect API key provided"}}"#;
    let result = service().chat("say hello", |_post| answered(401, body));
    assert_eq!(
        result,
        Err(ChatError::UpstreamStatus { status: 401, body: body.as_bytes().to_vec() })
    );
}

#[test]
fn chat_with_failing_status_ignores_a_well_formed_body() {
    let result = service().chat("say hello", |_post| answered(500, WELL_FORMED));
    assert_eq!(
        result,
        Err(ChatError::UpstreamStatus { status: 500, body: WELL_FORMED.as_bytes().to_vec() })
    );
}

#[test]
fn chat_with_invalid_json_is_malformed() {
    let result = service().chat("say hello", |_post| answered(200, "<html>not json</html>"));
    assert_eq!(result, Err(ChatError::MalformedResponse));
}

#[test]
fn chat_with_empty_prompt_is_invalid_input_and_sends_nothing() {
    let mut sent = false;
    let result = service().chat("", |_post| {
        sent = true;
        answered(200, WELL_FORMED)
    });
    assert_eq!(result, Err(ChatError::InvalidInput));
    assert!(!sent);
}

#[test]
fn chat_with_failed_exchange_is_transport_failure() {
    let result = service()
        .chat("say hello", |_post| Exchange::Failed { reason: "connection refused".to_string() });
    assert_eq!(
        result,
        Err(ChatError::TransportFailure { reason: "connection refused".to_string() })
    );
}

#[test]
fn chat_keeps_nothing_between_calls() {
    let client = service();
    let first = client.chat("same prompt", |_post| answered(200, WELL_FORMED));
    let other = r#"{"id": "y", "object": "chat.completion",
        "choices": [{"message": {"role": "assistant", "content": "hi there"}}]}"#;
    let second = client.chat("same prompt", |_post| answered(200, other));
    assert_eq!(first, Ok("hello".to_string()));
    assert_eq!(second, Ok("hi there".to_string()));
}

#[test]
fn reply_reads_the_first_of_several_choices() {
    let body = r#"{"id": "x", "object": "o", "choices": [
        {"message": {"role": "assistant", "content": "first"}},
        {"message": {"role": "assistant", "content": "second"}}]}"#;
    assert_eq!(OpenAIService::reply(answered(200, body)), Ok("first".to_string()));
}

#[test]
fn reply_success_is_the_2xx_range() {
    assert_eq!(OpenAIService::reply(answered(200, WELL_FORMED)), Ok("hello".to_string()));
    assert_eq!(OpenAIService::reply(answered(204, WELL_FORMED)), Ok("hello".to_string()));
    assert_eq!(OpenAIService::reply(answered(299, WELL_FORMED)), Ok("hello".to_string()));
    for status in [0u16, 100, 199, 300, 404, 429, 503, 65535] {
        assert_eq!(
            OpenAIService::reply(answered(status, WELL_FORMED)),
            Err(ChatError::UpstreamStatus { status, body: WELL_FORMED.as_bytes().to_vec() })
        );
    }
}

#[test]
fn is_success_bounds() {
    assert!(!is_success(199));
    assert!(is_success(200));
    assert!(is_success(299));
    assert!(!is_success(300));
    assert!(!is_success(0));
}

#[test]
fn reply_body_that_is_not_utf8_is_malformed() {
    let exchange = Exchange::Answered { status: 200, body: vec![0xff, 0xfe, 0x7b, 0x7d] };
    assert_eq!(OpenAIService::reply(exchange), Err(ChatError::MalformedResponse));
    let mut body = WELL_FORMED.as_bytes().to_vec();
    let at = body.iter().position(|b| *b == b'h').unwrap();
    body[at] = 0xc0;
    let exchange = Exchange::Answered { status: 200, body };
    assert_eq!(OpenAIService::reply(exchange), Err(ChatError::MalformedResponse));
}

#[test]
fn reply_keeps_text_beyond_ascii() {
    let body = "{\"id\": \"x\", \"object\": \"o\", \"choices\": [{\"message\": \
        {\"role\": \"assistant\", \"content\": \"gr\u{fc}\u{df} dich, \u{4e16}\u{754c} \\ud83d\\ude00\"}}]}";
    assert_eq!(
        OpenAIService::reply(answered(200, body)),
        Ok("gr\u{fc}\u{df} dich, \u{4e16}\u{754c} \u{1f600}".to_string())
    );
}

#[test]
fn reply_empty_body_is_malformed() {
    assert_eq!(OpenAIService::reply(answered(200, "")), Err(ChatError::MalformedResponse));
}

#[test]
fn reply_wrong_shape_is_malformed() {
    for body in [
        "null",
        "[]",
        "\"hello\"",
        r#"{"id": "x", "object": "o"}"#,
        r#"{"id": "x", "choices": []}"#,
        r#"{"object": "o", "choices": []}"#,
        r#"{"id": 1, "object": "o", "choices": []}"#,
        r#"{"id": "x", "object": "o", "choices": {}}"#,
        r#"{"id": "x", "object": "o", "choices": [{}]}"#,
        r#"{"id": "x", "object": "o", "choices": [{"message": {"role": "assistant"}}]}"#,
        r#"{"id": "x", "object": "o", "choices": [{"message": {"content": "hello"}}]}"#,
        r#"{"id": "x", "object": "o", "choices": [{"message": {"role": "assistant", "content": null}}]}"#,
        r#"{"id": "x", "object": "o", "choices": [{"message": {"role": "assistant", "content": "a"}}, 7]}"#,
        r#"{"id": "x", "object": "o", "choices": []} trailing"#,
        r#"{"id": "x", "object": "o", "choices": ["#,
    ] {
        assert_eq!(
            OpenAIService::reply(answered(200, body)),
            Err(ChatError::MalformedResponse),
            "{}",
            body
        );
    }
}

#[test]
fn first_reply_of_no_choice_is_empty_completion() {
    let response = ChatCompletionResponse {
        id: "x".to_string(),
        object: "o".to_string(),
        choices: vec![],
    };
    assert_eq!(first_reply(&response), Err(ChatError::EmptyCompletion));
}

#[test]
fn first_reply_is_the_content_of_the_first_choice() {
    let choice = |content: &str| Choice {
        message: Message { role: Role::Assistant, content: content.to_string() },
    };
    let response = ChatCompletionResponse {
        id: "x".to_string(),
        object: "o".to_string(),
        choices: vec![choice("one"), choice("two")],
    };
    assert_eq!(first_reply(&response), Ok("one".to_string()));
    let response = ChatCompletionResponse {
        id: "x".to_string(),
        object: "o".to_string(),
        choices: vec![choice("")],
    };
    assert_eq!(first_reply(&response), Ok(String::new()));
}
