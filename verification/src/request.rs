//! The request that the user composes (`LLMRequest`) and the chat-completion
//! request that is sent for it (`ChatCompletionRequest`).

use vstd::prelude::*;

use crate::json::{clone_json_value, json_text_parses, json_value_of, parse_json_text};

verus! {

broadcast use vstd::string::group_string_axioms;

/// A sampling parameter (temperature, top-p, a penalty) held by its IEEE-754
/// single-precision bit pattern. The library passes such values on and never
/// reads them; the program that reads the command line encodes and decodes
/// them.
#[derive(Clone, Copy, Debug, PartialEq, Eq, Structural)]
pub struct FloatBits(pub u32);

/// Stop sequences: one, or several (the service accepts up to four).
#[derive(Clone, Debug, PartialEq)]
pub enum Stop {
    String(String),
    StringArray(Vec<String>),
}

/// The settings of a JSON-schema response format. `schema` holds the parsed
/// schema document, if one was given.
#[derive(Clone, Debug, PartialEq)]
pub struct ResponseFormatJsonSchema {
    pub description: Option<String>,
    pub name: String,
    pub schema: Option<serde_json::Value>,
    pub strict: Option<bool>,
}

/// The format the model is asked to answer in.
#[derive(Clone, Debug, PartialEq)]
pub enum ResponseFormat {
    Text,
    JsonObject,
    JsonSchema { json_schema: ResponseFormatJsonSchema },
}

/// A request to the model, as the user composes it.
#[derive(Clone, Debug, PartialEq)]
pub struct LLMRequest {
    /// The user's prompt.
    pub prompt: String,
    /// The model's name.
    pub model: String,
    /// An optional system instruction.
    pub system_prompt: Option<String>,
    /// An optional bound on the number of tokens of the answer.
    pub max_completion_tokens: Option<u32>,
    /// An optional response format.
    pub response_format: Option<ResponseFormat>,
    /// Optional stop sequences.
    pub stop: Option<Stop>,
    /// Sampling temperature (0.0 to 2.0).
    pub temperature: Option<FloatBits>,
    /// Nucleus sampling (0.0 to 1.0).
    pub top_p: Option<FloatBits>,
    /// Penalty on repeated tokens (-2.0 to 2.0).
    pub frequency_penalty: Option<FloatBits>,
    /// Penalty on repeated topics (-2.0 to 2.0).
    pub presence_penalty: Option<FloatBits>,
    /// Seed for reproducible answers.
    pub seed: Option<i64>,
    /// A JSON schema, as text, for the JSON-schema response format.
    pub json_schema: Option<String>,
}

/// The model that a request names when nobody chose one.
pub open spec fn default_model() -> Seq<char> {
    "gpt-3.5-turbo"@
}

/// None of the optional settings of the request is given.
pub open spec fn has_no_options(r: LLMRequest) -> bool {
    &&& r.system_prompt is None
    &&& r.max_completion_tokens is None
    &&& r.response_format is None
    &&& r.stop is None
    &&& r.temperature is None
    &&& r.top_p is None
    &&& r.frequency_penalty is None
    &&& r.presence_penalty is None
    &&& r.seed is None
    &&& r.json_schema is None
}

impl Default for LLMRequest {
    /// An empty prompt for the default model, with no optional setting.
    fn default() -> (r: Self)
        ensures
            r.prompt@ == Seq::<char>::empty(),
            r.model@ == default_model(),
            has_no_options(r),
    {
        LLMRequest {
            prompt: String::new(),
            model: "gpt-3.5-turbo".to_string(),
            system_prompt: None,
            max_completion_tokens: None,
            response_format: None,
            stop: None,
            temperature: None,
            top_p: None,
            frequency_penalty: None,
            presence_penalty: None,
            seed: None,
            json_schema: None,
        }
    }
}

/// A request for the given prompt and model, with every other setting at its
/// default.
pub fn simple_request(prompt: &str, model: &str) -> (r: LLMRequest)
    ensures
        r.prompt@ == prompt@,
        r.model@ == model@,
        has_no_options(r),
{
    LLMRequest { prompt: prompt.to_string(), model: model.to_string(), ..LLMRequest::default() }
}

/// Who a message of the conversation comes from.
#[derive(Clone, Copy, Debug, PartialEq, Eq, Structural)]
pub enum Role {
    System,
    User,
    Assistant,
}

/// One message of a conversation.
#[derive(Clone, Debug, PartialEq)]
pub struct ChatMessage {
    pub role: Role,
    pub content: String,
}

/// The chat-completion request that is sent to the service.
#[derive(Clone, Debug, PartialEq)]
pub struct ChatCompletionRequest {
    pub model: String,
    pub messages: Vec<ChatMessage>,
    pub max_completion_tokens: Option<u32>,
    pub response_format: Option<ResponseFormat>,
    pub stop: Option<Stop>,
    pub temperature: Option<FloatBits>,
    pub top_p: Option<FloatBits>,
    pub frequency_penalty: Option<FloatBits>,
    pub presence_penalty: Option<FloatBits>,
    pub seed: Option<i64>,
}

/// Why a request could not be built.
#[derive(Debug)]
pub enum BuildError {
    /// The JSON schema given for the JSON-schema response format is not valid
    /// JSON; the parser's error is kept.
    InvalidJsonSchema(serde_json::Error),
}

/// The message of an invalid JSON schema.
pub open spec fn invalid_schema_message() -> Seq<char> {
    "Невалидный JSON в --json-schema / LLM_JSON_SCHEMA"@
}

impl BuildError {
    /// The error's message, for the user.
    pub fn message(&self) -> (r: String)
        ensures
            r@ == invalid_schema_message(),
    {
        match self {
            BuildError::InvalidJsonSchema(_) => "Невалидный JSON в --json-schema / LLM_JSON_SCHEMA".to_string(),
        }
    }
}

/// The messages that open a conversation: the system instruction, if any,
/// then the user's prompt.
pub open spec fn initial_messages(system_prompt: Option<String>, prompt: String) -> Seq<ChatMessage> {
    match system_prompt {
        Some(s) => seq![
            ChatMessage { role: Role::System, content: s },
            ChatMessage { role: Role::User, content: prompt },
        ],
        None => seq![ChatMessage { role: Role::User, content: prompt }],
    }
}

/// What a response format becomes once the schema text has been parsed
/// (`parsed` is the parser's outcome, or `None` where no schema text was given
/// or the format does not take one).
pub open spec fn schema_applied(
    format: ResponseFormat,
    parsed: Option<Result<serde_json::Value, serde_json::Error>>,
) -> Result<ResponseFormat, BuildError> {
    match format {
        ResponseFormat::JsonSchema { json_schema: inner } => match parsed {
            Some(Ok(v)) => Ok(
                ResponseFormat::JsonSchema {
                    json_schema: ResponseFormatJsonSchema {
                        description: inner.description,
                        name: inner.name,
                        schema: Some(v),
                        strict: inner.strict,
                    },
                },
            ),
            Some(Err(e)) => Err(BuildError::InvalidJsonSchema(e)),
            None => Ok(format),
        },
        _ => Ok(format),
    }
}

/// Puts a parsed JSON schema into a JSON-schema response format, or reports
/// the parser's error; other formats, and a format without parsed schema,
/// stay as they are.
pub fn with_parsed_schema(
    format: ResponseFormat,
    parsed: Option<Result<serde_json::Value, serde_json::Error>>,
) -> (r: Result<ResponseFormat, BuildError>)
    ensures
        r == schema_applied(format, parsed),
        !asks_json_schema(Some(format)) ==> r == Ok::<ResponseFormat, BuildError>(format),
        parsed is None ==> r == Ok::<ResponseFormat, BuildError>(format),
        asks_json_schema(Some(format)) ==> (parsed matches Some(Err(e)) ==> (r matches Err(
            BuildError::InvalidJsonSchema(e2),
        ) && e2 == e)),
        asks_json_schema(Some(format)) ==> (parsed matches Some(Ok(v)) ==> (r is Ok
            && asks_json_schema(Some(r->Ok_0)) && schema_settings(Some(r->Ok_0)).schema == Some(v)
            && schema_settings(Some(r->Ok_0)).name == schema_settings(Some(format)).name
            && schema_settings(Some(r->Ok_0)).description == schema_settings(Some(format)).description
            && schema_settings(Some(r->Ok_0)).strict == schema_settings(Some(format)).strict)),
{
    match format {
        ResponseFormat::JsonSchema { json_schema: inner } => match parsed {
            Some(Ok(v)) => Ok(
                ResponseFormat::JsonSchema {
                    json_schema: ResponseFormatJsonSchema {
                        description: inner.description,
                        name: inner.name,
                        schema: Some(v),
                        strict: inner.strict,
                    },
                },
            ),
            Some(Err(e)) => Err(BuildError::InvalidJsonSchema(e)),
            None => Ok(ResponseFormat::JsonSchema { json_schema: inner }),
        },
        other => Ok(other),
    }
}

/// The request asks for a JSON-schema answer, gives a schema text, and that
/// text is not valid JSON.
pub open spec fn schema_rejected(request: LLMRequest) -> bool {
    &&& request.response_format matches Some(ResponseFormat::JsonSchema { .. })
    &&& request.json_schema matches Some(raw) && !json_text_parses(raw@)
}

/// The response format that is sent for the requested one: a JSON-schema
/// format given with a schema text carries the value parsed from that text
/// and keeps its name, description and strictness; every other format is sent
/// unchanged.
pub open spec fn response_format_sent(
    requested: Option<ResponseFormat>,
    schema_text: Option<String>,
    sent: Option<ResponseFormat>,
) -> bool {
    match requested {
        Some(ResponseFormat::JsonSchema { json_schema: inner }) => match schema_text {
            Some(raw) => sent == Some(
                ResponseFormat::JsonSchema {
                    json_schema: ResponseFormatJsonSchema {
                        description: inner.description,
                        name: inner.name,
                        schema: Some(json_value_of(raw@)),
                        strict: inner.strict,
                    },
                },
            ),
            None => sent == requested,
        },
        _ => sent == requested,
    }
}

/// The sent request carries the user's request: same model, the opening
/// messages, and every setting passed on unchanged.
pub open spec fn carries(request: LLMRequest, q: ChatCompletionRequest) -> bool {
    &&& q.model == request.model
    &&& q.messages@ == initial_messages(request.system_prompt, request.prompt)
    &&& q.max_completion_tokens == request.max_completion_tokens
    &&& response_format_sent(request.response_format, request.json_schema, q.response_format)
    &&& q.stop == request.stop
    &&& q.temperature == request.temperature
    &&& q.top_p == request.top_p
    &&& q.frequency_penalty == request.frequency_penalty
    &&& q.presence_penalty == request.presence_penalty
    &&& q.seed == request.seed
}

/// A message of the user's.
pub open spec fn user_message(content: String) -> ChatMessage {
    ChatMessage { role: Role::User, content }
}

/// A system instruction.
pub open spec fn system_message(content: String) -> ChatMessage {
    ChatMessage { role: Role::System, content }
}

/// The format asks for a JSON-schema answer.
pub open spec fn asks_json_schema(f: Option<ResponseFormat>) -> bool {
    f matches Some(ResponseFormat::JsonSchema { .. })
}

/// The settings of a JSON-schema format.
pub open spec fn schema_settings(f: Option<ResponseFormat>) -> ResponseFormatJsonSchema {
    match f {
        Some(ResponseFormat::JsonSchema { json_schema }) => json_schema,
        _ => arbitrary(),
    }
}

/// What a sent request holds, by the user's request: the system instruction,
/// where given, as the first message, and the prompt as the last, the user's,
/// message, with nothing else; the model and every setting as given; and the
/// response format unchanged unless it is a JSON-schema format given with a
/// schema text, which then keeps its name, description and strictness and
/// carries the value parsed from that text.
pub proof fn lemma_sent_request(request: LLMRequest, q: ChatCompletionRequest)
    requires
        carries(request, q),
    ensures
        request.system_prompt is None ==> q.messages@ == seq![user_message(request.prompt)],
        request.system_prompt is Some ==> q.messages@ == seq![
            system_message(request.system_prompt->0),
            user_message(request.prompt),
        ],
        q.model == request.model,
        q.max_completion_tokens == request.max_completion_tokens,
        q.stop == request.stop,
        q.temperature == request.temperature,
        q.top_p == request.top_p,
        q.frequency_penalty == request.frequency_penalty,
        q.presence_penalty == request.presence_penalty,
        q.seed == request.seed,
        request.json_schema is None ==> q.response_format == request.response_format,
        !asks_json_schema(request.response_format) ==> q.response_format == request.response_format,
        request.json_schema is Some && asks_json_schema(request.response_format) ==> asks_json_schema(
            q.response_format,
        ),
        request.json_schema is Some && asks_json_schema(request.response_format) ==> schema_settings(
            q.response_format,
        ).schema == Some(json_value_of(request.json_schema->0@)),
        request.json_schema is Some && asks_json_schema(request.response_format) ==> schema_settings(
            q.response_format,
        ).name == schema_settings(request.response_format).name,
        request.json_schema is Some && asks_json_schema(request.response_format) ==> schema_settings(
            q.response_format,
        ).description == schema_settings(request.response_format).description,
        request.json_schema is Some && asks_json_schema(request.response_format) ==> schema_settings(
            q.response_format,
        ).strict == schema_settings(request.response_format).strict,
{
}

/// Builds the chat-completion request for a user's request.
///
/// It fails exactly when a JSON-schema answer is asked for with a schema text
/// that is not valid JSON.
pub fn build_api_request(request: LLMRequest) -> (r: Result<ChatCompletionRequest, BuildError>)
    ensures
        r is Err <==> schema_rejected(request),
        r matches Ok(q) ==> carries(request, q),
        !asks_json_schema(request.response_format) ==> r is Ok,
        request.json_schema is None ==> r is Ok,
        r is Ok && request.system_prompt is None ==> r->Ok_0.messages@ == seq![
            user_message(request.prompt),
        ],
        r is Ok && request.system_prompt is Some ==> r->Ok_0.messages@ == seq![
            system_message(request.system_prompt->0),
            user_message(request.prompt),
        ],
{
    let ghost given = request;
    let LLMRequest {
        prompt,
        model,
        system_prompt,
        max_completion_tokens,
        response_format,
        stop,
        temperature,
        top_p,
        frequency_penalty,
        presence_penalty,
        seed,
        json_schema,
    } = request;

    let mut messages: Vec<ChatMessage> = Vec::new();
    match system_prompt {
        Some(s) => {
            messages.push(ChatMessage { role: Role::System, content: s });
        },
        None => {},
    }
    messages.push(ChatMessage { role: Role::User, content: prompt });
    assert(messages@ == initial_messages(given.system_prompt, given.prompt));

    let sent_format = match response_format {
        None => None,
        Some(fmt) => {
            let parsed = match &fmt {
                ResponseFormat::JsonSchema { .. } => match &json_schema {
                    Some(raw) => Some(parse_json_text(raw.as_str())),
                    None => None,
                },
                _ => None,
            };
            match with_parsed_schema(fmt, parsed) {
                Ok(f) => Some(f),
                Err(e) => {
                    return Err(e);
                },
            }
        },
    };

    Ok(
        ChatCompletionRequest {
            model,
            messages,
            max_completion_tokens,
            response_format: sent_format,
            stop,
            temperature,
            top_p,
            frequency_penalty,
            presence_penalty,
            seed,
        },
    )
}

/// The streaming request for a conversation so far: the model, the messages
/// and the token bound, and no other setting.
pub fn stream_messages_request(model: &str, messages: Vec<ChatMessage>, max_tokens: Option<u32>) -> (r: ChatCompletionRequest)
    ensures
        r.model@ == model@,
        r.messages@ == messages@,
        r.max_completion_tokens == max_tokens,
        r.response_format is None,
        r.stop is None,
        r.temperature is None,
        r.top_p is None,
        r.frequency_penalty is None,
        r.presence_penalty is None,
        r.seed is None,
{
    ChatCompletionRequest {
        model: model.to_string(),
        messages,
        max_completion_tokens: max_tokens,
        response_format: None,
        stop: None,
        temperature: None,
        top_p: None,
        frequency_penalty: None,
        presence_penalty: None,
        seed: None,
    }
}

/// Two stop settings hold the same sequences.
pub open spec fn same_stop(a: Option<Stop>, b: Option<Stop>) -> bool {
    match a {
        None => b is None,
        Some(Stop::String(x)) => b == Some(Stop::String(x)),
        Some(Stop::StringArray(v)) => b matches Some(Stop::StringArray(w)) && w@ == v@,
    }
}

/// Two requests carry the same model and settings (their messages aside).
pub open spec fn same_settings(a: ChatCompletionRequest, b: ChatCompletionRequest) -> bool {
    &&& a.model == b.model
    &&& a.max_completion_tokens == b.max_completion_tokens
    &&& a.response_format == b.response_format
    &&& same_stop(a.stop, b.stop)
    &&& a.temperature == b.temperature
    &&& a.top_p == b.top_p
    &&& a.frequency_penalty == b.frequency_penalty
    &&& a.presence_penalty == b.presence_penalty
    &&& a.seed == b.seed
}

/// A copy of a conversation.
pub(crate) fn copy_messages(messages: &Vec<ChatMessage>) -> (r: Vec<ChatMessage>)
    ensures
        r@ == messages@,
{
    let mut copy: Vec<ChatMessage> = Vec::new();
    let n = messages.len();
    for i in 0..n
        invariant
            n == messages@.len(),
            copy@ == messages@.take(i as int),
    {
        let m = &messages[i];
        copy.push(ChatMessage { role: m.role, content: m.content.clone() });
        assert(copy@ == messages@.take(i + 1));
    }
    assert(copy@ == messages@);
    copy
}

fn copy_text(t: &Option<String>) -> (r: Option<String>)
    ensures
        r == *t,
{
    match t {
        Some(s) => Some(s.clone()),
        None => None,
    }
}

fn copy_format(f: &Option<ResponseFormat>) -> (r: Option<ResponseFormat>)
    ensures
        r == *f,
{
    match f {
        None => None,
        Some(ResponseFormat::Text) => Some(ResponseFormat::Text),
        Some(ResponseFormat::JsonObject) => Some(ResponseFormat::JsonObject),
        Some(ResponseFormat::JsonSchema { json_schema }) => {
            let schema = match &json_schema.schema {
                Some(v) => Some(clone_json_value(v)),
                None => None,
            };
            Some(
                ResponseFormat::JsonSchema {
                    json_schema: ResponseFormatJsonSchema {
                        description: copy_text(&json_schema.description),
                        name: json_schema.name.clone(),
                        schema,
                        strict: json_schema.strict,
                    },
                },
            )
        },
    }
}

fn copy_stop(s: &Option<Stop>) -> (r: Option<Stop>)
    ensures
        same_stop(*s, r),
{
    match s {
        None => None,
        Some(Stop::String(x)) => Some(Stop::String(x.clone())),
        Some(Stop::StringArray(v)) => {
            let mut w: Vec<String> = Vec::new();
            let n = v.len();
            for i in 0..n
                invariant
                    n == v@.len(),
                    w@ == v@.take(i as int),
            {
                w.push(v[i].clone());
                assert(w@ == v@.take(i + 1));
            }
            assert(w@ == v@);
            Some(Stop::StringArray(w))
        },
    }
}

impl ChatCompletionRequest {
    /// A copy of the request: same model, settings and messages.
    pub(crate) fn duplicate(&self) -> (r: ChatCompletionRequest)
        ensures
            same_settings(r, *self),
            r.messages@ == self.messages@,
    {
        ChatCompletionRequest {
            model: self.model.clone(),
            messages: copy_messages(&self.messages),
            max_completion_tokens: self.max_completion_tokens,
            response_format: copy_format(&self.response_format),
            stop: copy_stop(&self.stop),
            temperature: self.temperature,
            top_p: self.top_p,
            frequency_penalty: self.frequency_penalty,
            presence_penalty: self.presence_penalty,
            seed: self.seed,
        }
    }
}

} // verus!
