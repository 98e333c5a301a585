//! Request building, settings resolution, reply handling and the dialogue
//! state machine of a command-line client for OpenAI-compatible chat models.
//!
//! Every function here is verified; what the outside crates compute is
//! reached through a small number of trusted items, each documented where it
//! is declared.

pub mod text;
pub mod json;
pub mod request;
pub mod response;
pub mod client;
pub mod settings;
pub mod env_file;
pub mod chat;

pub use chat::{ChatSession, ChatStep};
pub use client::{validate_api_key, ApiHandle, ClientConfig, ConfigError, OpenAIClient};
pub use env_file::embedded_defaults_from_env_file;
pub use request::{
    build_api_request, simple_request, stream_messages_request, with_parsed_schema, BuildError,
    ChatCompletionRequest, ChatMessage, FloatBits, LLMRequest, ResponseFormat,
    ResponseFormatJsonSchema, Role, Stop,
};
pub use response::{
    delta_text, on_stream_chunk, CompletionReply, LLMResponse, ReplyError, StreamStep, TokenUsage,
};
pub use settings::{
    build_request, option_env_str, CommonArgs, EmbeddedDefaults, ResponseFormatArg, RuntimeEnv,
    SamplingSettings,
};
