use ai_cli_assistant::{
    build_api_request, ChatMessage, ChatSession, ChatStep, FloatBits, LLMRequest, ResponseFormat,
    ResponseFormatJsonSchema, Role, Stop,
};

fn msg(role: Role, content: &str) -> ChatMessage {
    ChatMessage { role, content: content.to_string() }
}

#[test]
fn dialogue_runs_turn_by_turn() {
    let request = LLMRequest {
        prompt: "Hello".to_string(),
        model: "gpt-4o".to_string(),
        system_prompt: Some("Be brief".to_string()),
        max_completion_tokens: Some(50),
        ..Default::default()
    };
    let mut session = ChatSession::start(request.clone()).unwrap();
    let first = session.next_request();
    assert_eq!(first.model, "gpt-4o");
    assert_eq!(first.max_completion_tokens, Some(50));
    assert_eq!(first.messages, vec![msg(Role::System, "Be brief"), msg(Role::User, "Hello")]);
    assert_eq!(first.messages, build_api_request(request.clone()).unwrap().messages);

    session.on_delta("Hi");
    session.on_delta(" there");
    session.end_reply();
    assert_eq!(session.on_user_line("  How are you?\n"), ChatStep::Continue);
    let second = session.next_request();
    assert_eq!(
        second.messages,
        vec![
            msg(Role::System, "Be brief"),
            msg(Role::User, "Hello"),
            msg(Role::Assistant, "Hi there"),
            msg(Role::User, "How are you?"),
        ]
    );
    assert!(second.temperature.is_none() && second.response_format.is_none());

    session.end_reply();
    assert_eq!(session.on_user_line("again"), ChatStep::Continue);
    assert_eq!(session.next_request().messages.len(), 5);
    assert_eq!(session.on_user_line(" \t\u{3000}\n"), ChatStep::Finish);
    assert_eq!(session.next_request().messages.len(), 5);
}

#[test]
fn empty_answer_leaves_no_message() {
    let request = LLMRequest { prompt: "Q".to_string(), model: "m".to_string(), ..Default::default() };
    let mut session = ChatSession::start(request.clone()).unwrap();
    session.end_reply();
    assert_eq!(session.next_request().messages, vec![msg(Role::User, "Q")]);
    assert_eq!(session.on_user_line(""), ChatStep::Finish);
}

#[test]
fn dialogue_requests_carry_the_settings() {
    let request = LLMRequest {
        prompt: "Q".to_string(),
        model: "gpt-4o".to_string(),
        temperature: Some(FloatBits(0.2f32.to_bits())),
        top_p: Some(FloatBits(0.9f32.to_bits())),
        seed: Some(5),
        stop: Some(Stop::StringArray(vec!["END".to_string(), "###".to_string()])),
        response_format: Some(ResponseFormat::JsonSchema {
            json_schema: ResponseFormatJsonSchema {
                name: "response".to_string(),
                strict: Some(false),
                description: None,
                schema: None,
            },
        }),
        json_schema: Some(r#"{"type":"object"}"#.to_string()),
        ..Default::default()
    };
    let single = build_api_request(request.clone()).unwrap();
    let mut session = ChatSession::start(request).unwrap();
    session.on_delta("A");
    session.end_reply();
    assert_eq!(session.on_user_line("more"), ChatStep::Continue);
    let next = session.next_request();
    assert_eq!(next.temperature.map(|b| f32::from_bits(b.0)), Some(0.2));
    assert_eq!(next.top_p, single.top_p);
    assert_eq!(next.seed, Some(5));
    assert_eq!(next.stop, single.stop);
    assert_eq!(next.response_format, single.response_format);
    assert_eq!(next.messages.len(), 3);
}

#[test]
fn dialogue_with_invalid_schema_does_not_start() {
    let request = LLMRequest {
        prompt: "Q".to_string(),
        model: "m".to_string(),
        response_format: Some(ResponseFormat::JsonSchema {
            json_schema: ResponseFormatJsonSchema {
                name: "response".to_string(),
                strict: Some(false),
                description: None,
                schema: None,
            },
        }),
        json_schema: Some("{".to_string()),
        ..Default::default()
    };
    assert!(ChatSession::start(request).is_err());
}
