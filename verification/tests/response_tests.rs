use ai_cli_assistant::{
    delta_text, on_stream_chunk, CompletionReply, LLMResponse, ReplyError, StreamStep, TokenUsage,
};

fn usage() -> Option<TokenUsage> {
    Some(TokenUsage { prompt_tokens: 3, completion_tokens: 4, total_tokens: 7 })
}

#[test]
fn first_choice_is_the_answer() {
    let reply = CompletionReply {
        model: "gpt-4o-2024".to_string(),
        choice_contents: vec![Some("first".to_string()), Some("second".to_string())],
        usage: usage(),
    };
    let r = LLMResponse::from_completion(reply).unwrap();
    assert_eq!(r.content, "first");
    assert_eq!(r.model, "gpt-4o-2024");
    assert_eq!(r.usage, usage());
}

#[test]
fn reply_without_choices_is_an_error() {
    let reply = CompletionReply { model: "m".to_string(), choice_contents: vec![], usage: None };
    let e = LLMResponse::from_completion(reply).unwrap_err();
    assert_eq!(e, ReplyError::NoChoices);
    assert!(e.message().contains("choices"));
}

#[test]
fn first_choice_without_text_is_an_error() {
    let reply = CompletionReply {
        model: "m".to_string(),
        choice_contents: vec![None, Some("later".to_string())],
        usage: None,
    };
    let e = LLMResponse::from_completion(reply).unwrap_err();
    assert_eq!(e, ReplyError::EmptyContent);
    assert_eq!(e.message(), "Получен пустой ответ от модели");
}

#[test]
fn delta_is_the_first_choice_text() {
    assert_eq!(delta_text(vec![]), None);
    assert_eq!(delta_text(vec![None, Some("x".to_string())]), None);
    assert_eq!(delta_text(vec![Some("ab".to_string()), Some("x".to_string())]), Some("ab".to_string()));
}

#[test]
fn stream_chunks_print_skip_or_stop() {
    assert_eq!(on_stream_chunk(false, vec![Some("ab".to_string())]), StreamStep::Print("ab".to_string()));
    assert_eq!(on_stream_chunk(false, vec![None, Some("x".to_string())]), StreamStep::Skip);
    assert_eq!(on_stream_chunk(false, vec![]), StreamStep::Skip);
    assert_eq!(on_stream_chunk(true, vec![Some("ab".to_string())]), StreamStep::Interrupt);
}
