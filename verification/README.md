# ai_cli_assistant

A command-line client for OpenAI-compatible chat models (OpenAI, LM Studio,
Ollama, vLLM), with its logic verified by Verus.

- `src/` — the verified library:
  - `request.rs`: the user's request, the chat-completion request built from it, and the JSON-schema response format;
  - `settings.rs`: where each setting comes from (command line > run-time environment > build-time default > built-in default);
  - `env_file.rs`: the `.env` format from which build-time defaults are taken (only the nine model settings, never a key);
  - `response.rs`: turning a completion reply into an answer, and deciding what the streaming mode does with each chunk;
  - `chat.rs`: the dialogue mode as a state machine;
  - `client.rs`: connection settings, the API-key check and the client;
  - `json.rs`, `text.rs`: JSON values and string facts.

  The facts taken on trust from outside code stand as documented wrappers in
  `json.rs` (`serde_json`), `client.rs` (`async-openai`, `reqwest`),
  `settings.rs` (integer parsing) and `text.rs` (string comparison and trimming).
- `app/` — the program: command-line parsing, environment and terminal I/O, the network calls, and serializable copies of the request and answer types.
- `tests/` — tests of the library.
