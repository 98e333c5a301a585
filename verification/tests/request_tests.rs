use ai_cli_assistant::{
    build_api_request, simple_request, stream_messages_request, with_parsed_schema, ChatMessage,
    FloatBits, LLMRequest, ResponseFormat, ResponseFormatJsonSchema, Role, Stop,
};

fn bits(x: f32) -> FloatBits {
    FloatBits(x.to_bits())
}

fn value(b: Option<FloatBits>) -> Option<f32> {
    b.map(|b| f32::from_bits(b.0))
}

fn json_schema_format() -> ResponseFormat {
    ResponseFormat::JsonSchema {
        json_schema: ResponseFormatJsonSchema {
            name: "response".to_string(),
            strict: Some(false),
            description: None,
            schema: None,
        },
    }
}

#[test]
fn test_llm_request_default() {
    let r = LLMRequest::default();
    assert_eq!(r.model, "gpt-3.5-turbo");
    assert!(r.prompt.is_empty());
    assert!(r.system_prompt.is_none());
    assert!(r.max_completion_tokens.is_none());
    assert!(r.response_format.is_none());
    assert!(r.stop.is_none());
    assert!(r.temperature.is_none());
    assert!(r.top_p.is_none());
    assert!(r.frequency_penalty.is_none());
    assert!(r.presence_penalty.is_none());
    assert!(r.seed.is_none());
    assert!(r.json_schema.is_none());
}

#[test]
fn test_llm_request_custom() {
    let r = LLMRequest {
        prompt: "test".to_string(),
        model: "gpt-4".to_string(),
        system_prompt: Some("You are helpful".to_string()),
        max_completion_tokens: Some(200),
        temperature: Some(bits(0.7)),
        seed: Some(42),
        json_schema: Some(r#"{"type":"object"}"#.to_string()),
        ..Default::default()
    };
    assert_eq!(r.prompt, "test");
    assert_eq!(r.model, "gpt-4");
    assert_eq!(r.system_prompt.as_deref(), Some("You are helpful"));
    assert_eq!(r.max_completion_tokens, Some(200));
    assert_eq!(value(r.temperature), Some(0.7));
    assert_eq!(r.seed, Some(42));
    assert!(r.json_schema.is_some());
}

#[test]
fn test_build_api_request_minimal() {
    let r = LLMRequest {
        prompt: "hello".to_string(),
        model: "gpt-4o".to_string(),
        ..Default::default()
    };
    let req = build_api_request(r).unwrap();
    assert_eq!(req.model, "gpt-4o");
    assert_eq!(req.messages.len(), 1);
    assert!(req.max_completion_tokens.is_none());
    assert!(req.temperature.is_none());
    assert!(req.response_format.is_none());
}

#[test]
fn test_build_api_request_with_system_prompt() {
    let r = LLMRequest {
        prompt: "hello".to_string(),
        model: "gpt-4o".to_string(),
        system_prompt: Some("You are a Rust expert".to_string()),
        ..Default::default()
    };
    let req = build_api_request(r).unwrap();
    assert_eq!(req.messages.len(), 2);
}

#[test]
fn test_build_api_request_without_system_prompt() {
    let r = LLMRequest {
        prompt: "hello".to_string(),
        model: "gpt-4o".to_string(),
        system_prompt: None,
        ..Default::default()
    };
    let req = build_api_request(r).unwrap();
    assert_eq!(req.messages.len(), 1);
}

#[test]
fn test_build_api_request_max_tokens() {
    let r = LLMRequest {
        prompt: "hi".to_string(),
        model: "gpt-4o".to_string(),
        max_completion_tokens: Some(256),
        ..Default::default()
    };
    let req = build_api_request(r).unwrap();
    assert_eq!(req.max_completion_tokens, Some(256));
}

#[test]
fn test_build_api_request_temperature_and_seed() {
    let r = LLMRequest {
        prompt: "hi".to_string(),
        model: "gpt-4o".to_string(),
        temperature: Some(bits(0.3)),
        seed: Some(123),
        ..Default::default()
    };
    let req = build_api_request(r).unwrap();
    assert_eq!(value(req.temperature), Some(0.3));
    assert_eq!(req.seed, Some(123));
}

#[test]
fn test_build_api_request_sampling_params() {
    let r = LLMRequest {
        prompt: "hi".to_string(),
        model: "gpt-4o".to_string(),
        top_p: Some(bits(0.8)),
        frequency_penalty: Some(bits(0.5)),
        presence_penalty: Some(bits(-0.3)),
        ..Default::default()
    };
    let req = build_api_request(r).unwrap();
    assert_eq!(value(req.top_p), Some(0.8));
    assert_eq!(value(req.frequency_penalty), Some(0.5));
    assert_eq!(value(req.presence_penalty), Some(-0.3));
}

#[test]
fn test_build_api_request_response_format_text() {
    let r = LLMRequest {
        prompt: "hi".to_string(),
        model: "gpt-4o".to_string(),
        response_format: Some(ResponseFormat::Text),
        ..Default::default()
    };
    let req = build_api_request(r).unwrap();
    assert!(matches!(req.response_format, Some(ResponseFormat::Text)));
}

#[test]
fn test_build_api_request_json_schema_without_body() {
    let r = LLMRequest {
        prompt: "hi".to_string(),
        model: "gpt-4o".to_string(),
        response_format: Some(json_schema_format()),
        json_schema: None,
        ..Default::default()
    };
    let req = build_api_request(r).unwrap();
    if let Some(ResponseFormat::JsonSchema { json_schema }) = req.response_format {
        assert!(json_schema.schema.is_none());
        assert_eq!(json_schema.name, "response");
    } else {
        panic!("expected JsonSchema response_format");
    }
}

#[test]
fn test_build_api_request_json_schema_with_valid_body() {
    let schema_str = r#"{"type":"object","properties":{"answer":{"type":"string"}},"required":["answer"],"additionalProperties":false}"#;
    let r = LLMRequest {
        prompt: "hi".to_string(),
        model: "gpt-4o".to_string(),
        response_format: Some(json_schema_format()),
        json_schema: Some(schema_str.to_string()),
        ..Default::default()
    };
    let req = build_api_request(r).unwrap();
    if let Some(ResponseFormat::JsonSchema { json_schema }) = req.response_format {
        let schema = json_schema.schema.expect("schema должна быть Some");
        assert_eq!(schema["type"], "object");
        assert!(schema["properties"]["answer"].is_object());
        assert_eq!(schema["required"][0], "answer");
    } else {
        panic!("expected JsonSchema response_format");
    }
}

#[test]
fn test_build_api_request_json_schema_invalid_json_returns_error() {
    let r = LLMRequest {
        prompt: "hi".to_string(),
        model: "gpt-4o".to_string(),
        response_format: Some(json_schema_format()),
        json_schema: Some("not valid json {{{".to_string()),
        ..Default::default()
    };
    let result = build_api_request(r);
    assert!(result.is_err());
    assert!(result.unwrap_err().message().contains("Невалидный JSON"));
}

#[test]
fn test_build_api_request_text_format_ignores_json_schema_field() {
    let r = LLMRequest {
        prompt: "hi".to_string(),
        model: "gpt-4o".to_string(),
        response_format: Some(ResponseFormat::Text),
        json_schema: Some(r#"{"type":"object"}"#.to_string()),
        ..Default::default()
    };
    let req = build_api_request(r).unwrap();
    assert!(matches!(req.response_format, Some(ResponseFormat::Text)));
}

#[test]
fn test_build_api_request_stop_single_string() {
    let r = LLMRequest {
        prompt: "hi".to_string(),
        model: "gpt-4o".to_string(),
        stop: Some(Stop::String("END".to_string())),
        ..Default::default()
    };
    let req = build_api_request(r).unwrap();
    assert!(matches!(req.stop, Some(Stop::String(ref s)) if s == "END"));
}

#[test]
fn test_build_api_request_stop_string_array() {
    let r = LLMRequest {
        prompt: "hi".to_string(),
        model: "gpt-4o".to_string(),
        stop: Some(Stop::StringArray(vec!["END".to_string(), "###".to_string()])),
        ..Default::default()
    };
    let req = build_api_request(r).unwrap();
    if let Some(Stop::StringArray(arr)) = req.stop {
        assert_eq!(arr.len(), 2);
        assert_eq!(arr[0], "END");
        assert_eq!(arr[1], "###");
    } else {
        panic!("expected StringArray stop");
    }
}

#[test]
fn build_api_request_orders_system_before_user() {
    let r = LLMRequest {
        prompt: "question".to_string(),
        model: "m".to_string(),
        system_prompt: Some("rules".to_string()),
        ..Default::default()
    };
    let req = build_api_request(r).unwrap();
    assert_eq!(
        req.messages,
        vec![
            ChatMessage { role: Role::System, content: "rules".to_string() },
            ChatMessage { role: Role::User, content: "question".to_string() },
        ]
    );
}

#[test]
fn build_api_request_keeps_schema_settings_and_json_object() {
    let r = LLMRequest {
        prompt: "p".to_string(),
        model: "m".to_string(),
        response_format: Some(ResponseFormat::JsonSchema {
            json_schema: ResponseFormatJsonSchema {
                name: "answer".to_string(),
                strict: Some(true),
                description: Some("d".to_string()),
                schema: None,
            },
        }),
        json_schema: Some("[1, 2]".to_string()),
        ..Default::default()
    };
    let req = build_api_request(r).unwrap();
    match req.response_format {
        Some(ResponseFormat::JsonSchema { json_schema }) => {
            assert_eq!(json_schema.name, "answer");
            assert_eq!(json_schema.strict, Some(true));
            assert_eq!(json_schema.description.as_deref(), Some("d"));
            assert_eq!(json_schema.schema, Some(serde_json::from_str::<serde_json::Value>("[1,2]").unwrap()));
        }
        _ => panic!("expected JsonSchema response_format"),
    }
}

#[test]
fn build_api_request_json_object_ignores_schema_text() {
    let r = LLMRequest {
        prompt: "p".to_string(),
        model: "m".to_string(),
        response_format: Some(ResponseFormat::JsonObject),
        json_schema: Some("not json".to_string()),
        ..Default::default()
    };
    let req = build_api_request(r).unwrap();
    assert_eq!(req.response_format, Some(ResponseFormat::JsonObject));
}

#[test]
fn build_api_request_schema_text_without_format_is_not_parsed() {
    let r = LLMRequest {
        prompt: "p".to_string(),
        model: "m".to_string(),
        json_schema: Some("{{{".to_string()),
        ..Default::default()
    };
    let req = build_api_request(r).unwrap();
    assert!(req.response_format.is_none());
}

#[test]
fn with_parsed_schema_cases() {
    let parsed = serde_json::from_str::<serde_json::Value>(r#"{"type":"string"}"#);
    let with = with_parsed_schema(json_schema_format(), Some(parsed)).unwrap();
    match with {
        ResponseFormat::JsonSchema { json_schema } => {
            assert_eq!(json_schema.schema.unwrap()["type"], "string");
            assert_eq!(json_schema.name, "response");
        }
        _ => panic!("expected JsonSchema response_format"),
    }
    let bad = serde_json::from_str::<serde_json::Value>("{");
    assert!(with_parsed_schema(json_schema_format(), Some(bad)).is_err());
    let bad = serde_json::from_str::<serde_json::Value>("{");
    assert_eq!(with_parsed_schema(ResponseFormat::Text, Some(bad)).unwrap(), ResponseFormat::Text);
    assert_eq!(with_parsed_schema(json_schema_format(), None).unwrap(), json_schema_format());
}

#[test]
fn simple_request_sets_prompt_and_model_only() {
    let r = simple_request("hello", "gpt-4o");
    assert_eq!(r.prompt, "hello");
    assert_eq!(r.model, "gpt-4o");
    let d = LLMRequest { prompt: "hello".to_string(), model: "gpt-4o".to_string(), ..Default::default() };
    assert_eq!(r, d);
}

#[test]
fn stream_messages_request_carries_history() {
    let msgs = vec![
        ChatMessage { role: Role::User, content: "a".to_string() },
        ChatMessage { role: Role::Assistant, content: "b".to_string() },
    ];
    let req = stream_messages_request("m", msgs.clone(), Some(7));
    assert_eq!(req.model, "m");
    assert_eq!(req.messages, msgs);
    assert_eq!(req.max_completion_tokens, Some(7));
    assert!(req.response_format.is_none() && req.stop.is_none() && req.seed.is_none());
    assert!(req.temperature.is_none() && req.top_p.is_none());
}
