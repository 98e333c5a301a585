//! Where each setting of a request comes from.
//!
//! A setting is taken from the command line, else from the environment at
//! run time, else from the defaults embedded when the program was built,
//! else from the built-in default (only the model has one).

use vstd::prelude::*;

use crate::request::{default_model, FloatBits, LLMRequest, ResponseFormat, ResponseFormatJsonSchema, Stop};
use crate::text::str_eq;

verus! {

broadcast use vstd::string::group_string_axioms;

/// The response format chosen on the command line.
#[derive(Clone, Copy, Debug, PartialEq, Eq, Structural)]
pub enum ResponseFormatArg {
    /// Plain text (the service's default).
    Text,
    /// Structured JSON following a schema.
    JsonSchema,
}

/// The settings given on the command line (`None`, or no stop flag, where a
/// flag was not given).
#[derive(Clone, Debug, PartialEq)]
pub struct CommonArgs {
    pub prompt: String,
    pub model: Option<String>,
    pub system: Option<String>,
    pub max_tokens: Option<u32>,
    pub response_format: Option<ResponseFormatArg>,
    pub stop: Vec<String>,
    pub temperature: Option<FloatBits>,
    pub top_p: Option<FloatBits>,
    pub frequency_penalty: Option<FloatBits>,
    pub presence_penalty: Option<FloatBits>,
    pub seed: Option<i64>,
    pub json_schema: Option<String>,
}

/// The sampling settings of one source, already read as numbers (`None` where
/// the source has no value for a setting, or one that is not a number).
#[derive(Clone, Copy, Debug, PartialEq, Eq, Structural)]
pub struct SamplingSettings {
    pub temperature: Option<FloatBits>,
    pub top_p: Option<FloatBits>,
    pub frequency_penalty: Option<FloatBits>,
    pub presence_penalty: Option<FloatBits>,
}

/// The environment's values at run time (`None` where a variable is unset):
/// `OPENAI_DEFAULT_MODEL`, `LLM_SYSTEM_PROMPT`, `LLM_MAX_TOKENS`, `LLM_SEED`
/// and `LLM_JSON_SCHEMA` as text, and the four sampling variables
/// (`LLM_TEMPERATURE`, `LLM_TOP_P`, `LLM_FREQUENCY_PENALTY`,
/// `LLM_PRESENCE_PENALTY`) as numbers.
#[derive(Clone, Debug, PartialEq)]
pub struct RuntimeEnv {
    pub default_model: Option<String>,
    pub system_prompt: Option<String>,
    pub max_tokens: Option<String>,
    pub seed: Option<String>,
    pub json_schema: Option<String>,
    pub sampling: SamplingSettings,
}

/// The defaults embedded when the program was built, as text, one for each
/// key `BUILD_DEFAULT_<variable>` (`None` where the build had no value).
#[derive(Clone, Debug, PartialEq)]
pub struct EmbeddedDefaults {
    pub default_model: Option<String>,
    pub system_prompt: Option<String>,
    pub max_tokens: Option<String>,
    pub temperature: Option<String>,
    pub top_p: Option<String>,
    pub frequency_penalty: Option<String>,
    pub presence_penalty: Option<String>,
    pub seed: Option<String>,
    pub json_schema: Option<String>,
}

/// The embedded default that a key names; the keys are matched in this order
/// and an unknown key names none.
pub open spec fn embedded_lookup(embedded: EmbeddedDefaults, key: Seq<char>) -> Option<String> {
    if key == "BUILD_DEFAULT_OPENAI_DEFAULT_MODEL"@ {
        embedded.default_model
    } else if key == "BUILD_DEFAULT_LLM_SYSTEM_PROMPT"@ {
        embedded.system_prompt
    } else if key == "BUILD_DEFAULT_LLM_MAX_TOKENS"@ {
        embedded.max_tokens
    } else if key == "BUILD_DEFAULT_LLM_TEMPERATURE"@ {
        embedded.temperature
    } else if key == "BUILD_DEFAULT_LLM_TOP_P"@ {
        embedded.top_p
    } else if key == "BUILD_DEFAULT_LLM_FREQUENCY_PENALTY"@ {
        embedded.frequency_penalty
    } else if key == "BUILD_DEFAULT_LLM_PRESENCE_PENALTY"@ {
        embedded.presence_penalty
    } else if key == "BUILD_DEFAULT_LLM_SEED"@ {
        embedded.seed
    } else if key == "BUILD_DEFAULT_LLM_JSON_SCHEMA"@ {
        embedded.json_schema
    } else {
        None
    }
}

fn clone_text(t: &Option<String>) -> (r: Option<String>)
    ensures
        r == *t,
{
    match t {
        Some(s) => Some(s.clone()),
        None => None,
    }
}

/// The embedded default that `key` names, or `None` for an unknown key.
pub fn option_env_str(key: &str, embedded: &EmbeddedDefaults) -> (r: Option<String>)
    ensures
        r == embedded_lookup(*embedded, key@),
{
    if str_eq(key, "BUILD_DEFAULT_OPENAI_DEFAULT_MODEL") {
        return clone_text(&embedded.default_model);
    }
    if str_eq(key, "BUILD_DEFAULT_LLM_SYSTEM_PROMPT") {
        return clone_text(&embedded.system_prompt);
    }
    if str_eq(key, "BUILD_DEFAULT_LLM_MAX_TOKENS") {
        return clone_text(&embedded.max_tokens);
    }
    if str_eq(key, "BUILD_DEFAULT_LLM_TEMPERATURE") {
        return clone_text(&embedded.temperature);
    }
    if str_eq(key, "BUILD_DEFAULT_LLM_TOP_P") {
        return clone_text(&embedded.top_p);
    }
    if str_eq(key, "BUILD_DEFAULT_LLM_FREQUENCY_PENALTY") {
        return clone_text(&embedded.frequency_penalty);
    }
    if str_eq(key, "BUILD_DEFAULT_LLM_PRESENCE_PENALTY") {
        return clone_text(&embedded.presence_penalty);
    }
    if str_eq(key, "BUILD_DEFAULT_LLM_SEED") {
        return clone_text(&embedded.seed);
    }
    if str_eq(key, "BUILD_DEFAULT_LLM_JSON_SCHEMA") {
        return clone_text(&embedded.json_schema);
    }
    None
}

/// Each known key names its own embedded default.
pub proof fn lemma_embedded_keys(embedded: EmbeddedDefaults)
    ensures
        embedded_lookup(embedded, "BUILD_DEFAULT_OPENAI_DEFAULT_MODEL"@) == embedded.default_model,
        embedded_lookup(embedded, "BUILD_DEFAULT_LLM_SYSTEM_PROMPT"@) == embedded.system_prompt,
        embedded_lookup(embedded, "BUILD_DEFAULT_LLM_MAX_TOKENS"@) == embedded.max_tokens,
        embedded_lookup(embedded, "BUILD_DEFAULT_LLM_TEMPERATURE"@) == embedded.temperature,
        embedded_lookup(embedded, "BUILD_DEFAULT_LLM_TOP_P"@) == embedded.top_p,
        embedded_lookup(embedded, "BUILD_DEFAULT_LLM_FREQUENCY_PENALTY"@) == embedded.frequency_penalty,
        embedded_lookup(embedded, "BUILD_DEFAULT_LLM_PRESENCE_PENALTY"@) == embedded.presence_penalty,
        embedded_lookup(embedded, "BUILD_DEFAULT_LLM_SEED"@) == embedded.seed,
        embedded_lookup(embedded, "BUILD_DEFAULT_LLM_JSON_SCHEMA"@) == embedded.json_schema,
{
    reveal_strlit("BUILD_DEFAULT_OPENAI_DEFAULT_MODEL");
    reveal_strlit("BUILD_DEFAULT_LLM_SYSTEM_PROMPT");
    reveal_strlit("BUILD_DEFAULT_LLM_MAX_TOKENS");
    reveal_strlit("BUILD_DEFAULT_LLM_TEMPERATURE");
    reveal_strlit("BUILD_DEFAULT_LLM_TOP_P");
    reveal_strlit("BUILD_DEFAULT_LLM_FREQUENCY_PENALTY");
    reveal_strlit("BUILD_DEFAULT_LLM_PRESENCE_PENALTY");
    reveal_strlit("BUILD_DEFAULT_LLM_SEED");
    reveal_strlit("BUILD_DEFAULT_LLM_JSON_SCHEMA");
    assert("BUILD_DEFAULT_OPENAI_DEFAULT_MODEL"@.len() == 34);
    assert("BUILD_DEFAULT_LLM_SYSTEM_PROMPT"@.len() == 31);
    assert("BUILD_DEFAULT_LLM_MAX_TOKENS"@.len() == 28);
    assert("BUILD_DEFAULT_LLM_TEMPERATURE"@.len() == 29);
    assert("BUILD_DEFAULT_LLM_TOP_P"@.len() == 23);
    assert("BUILD_DEFAULT_LLM_FREQUENCY_PENALTY"@.len() == 35);
    assert("BUILD_DEFAULT_LLM_PRESENCE_PENALTY"@.len() == 34);
    assert("BUILD_DEFAULT_LLM_SEED"@.len() == 22);
    assert("BUILD_DEFAULT_LLM_JSON_SCHEMA"@.len() == 29);
    assert("BUILD_DEFAULT_OPENAI_DEFAULT_MODEL"@[14] != "BUILD_DEFAULT_LLM_PRESENCE_PENALTY"@[14]);
    assert("BUILD_DEFAULT_LLM_TEMPERATURE"@[18] != "BUILD_DEFAULT_LLM_JSON_SCHEMA"@[18]);
}

/// A decimal digit.
pub open spec fn is_digit(c: char) -> bool {
    '0' as int <= c as int && c as int <= '9' as int
}

/// Every character is a decimal digit.
pub open spec fn all_digits(d: Seq<char>) -> bool {
    forall|k: int| 0 <= k < d.len() ==> is_digit(#[trigger] d[k])
}

/// The number that a string of decimal digits writes.
pub open spec fn digits_value(d: Seq<char>) -> nat
    decreases d.len(),
{
    if d.len() == 0 {
        0
    } else {
        digits_value(d.drop_last()) * 10 + (d.last() as int - '0' as int) as nat
    }
}

/// What `str::parse::<u32>` gives, as its documentation states it: an
/// optional `+`, then one or more decimal digits and nothing else, whose
/// value fits in a `u32`.
pub open spec fn u32_from_text(s: Seq<char>) -> Option<u32> {
    let d = if s.len() > 0 && s[0] == '+' { s.drop_first() } else { s };
    if d.len() > 0 && all_digits(d) && digits_value(d) <= u32::MAX {
        Some(digits_value(d) as u32)
    } else {
        None
    }
}

/// What `str::parse::<i64>` gives, as its documentation states it: an
/// optional `+` or `-`, then one or more decimal digits and nothing else,
/// whose value fits in an `i64`.
pub open spec fn i64_from_text(s: Seq<char>) -> Option<i64> {
    if s.len() > 0 && s[0] == '-' {
        let d = s.drop_first();
        if d.len() > 0 && all_digits(d) && digits_value(d) <= 0x8000_0000_0000_0000 {
            Some((0 - digits_value(d)) as i64)
        } else {
            None
        }
    } else {
        let d = if s.len() > 0 && s[0] == '+' { s.drop_first() } else { s };
        if d.len() > 0 && all_digits(d) && digits_value(d) <= i64::MAX {
            Some(digits_value(d) as i64)
        } else {
            None
        }
    }
}

/// `str::parse::<u32>`, with an error turned into `None`.
#[verifier::external_body]
fn parse_u32_text(text: &str) -> (r: Option<u32>)
    ensures
        r == u32_from_text(text@),
{
    text.parse::<u32>().ok()
}

/// `str::parse::<i64>`, with an error turned into `None`.
#[verifier::external_body]
fn parse_i64_text(text: &str) -> (r: Option<i64>)
    ensures
        r == i64_from_text(text@),
{
    text.parse::<i64>().ok()
}

/// The whole-number value of an optional setting text.
pub open spec fn u32_setting(t: Option<String>) -> Option<u32> {
    match t {
        Some(s) => u32_from_text(s@),
        None => None,
    }
}

/// The signed value of an optional setting text.
pub open spec fn i64_setting(t: Option<String>) -> Option<i64> {
    match t {
        Some(s) => i64_from_text(s@),
        None => None,
    }
}

/// Reads an optional setting text as a `u32`: `None` where there is no text
/// or it is not such a number.
fn parse_u32_setting(t: &Option<String>) -> (r: Option<u32>)
    ensures
        r == u32_setting(*t),
{
    match t {
        Some(s) => parse_u32_text(s.as_str()),
        None => None,
    }
}

/// Reads an optional setting text as an `i64`: `None` where there is no text
/// or it is not such a number.
fn parse_i64_setting(t: &Option<String>) -> (r: Option<i64>)
    ensures
        r == i64_setting(*t),
{
    match t {
        Some(s) => parse_i64_text(s.as_str()),
        None => None,
    }
}

/// The first value given, in order of precedence.
pub open spec fn first_present<T>(a: Option<T>, b: Option<T>, c: Option<T>) -> Option<T> {
    match a {
        Some(x) => Some(x),
        None => match b {
            Some(y) => Some(y),
            None => c,
        },
    }
}

fn pick_first<T>(a: Option<T>, b: Option<T>, c: Option<T>) -> (r: Option<T>)
    ensures
        r == first_present(a, b, c),
{
    match a {
        Some(x) => Some(x),
        None => match b {
            Some(y) => Some(y),
            None => c,
        },
    }
}

/// The precedence of the sources, stated for any one setting: a command-line
/// value wins; without one the run-time environment's value wins; without
/// either the embedded default is taken; and with none there is none.
pub proof fn lemma_precedence<T>(cli: Option<T>, runtime: Option<T>, embedded: Option<T>)
    ensures
        cli matches Some(x) ==> first_present(cli, runtime, embedded) == Some(x),
        cli is None && runtime is Some ==> first_present(cli, runtime, embedded) == runtime,
        cli is None && runtime is None ==> first_present(cli, runtime, embedded) == embedded,
        first_present(cli, runtime, embedded) is None <==> (cli is None && runtime is None && embedded is None),
{
}

/// The response format a command-line choice stands for: plain text, or the
/// JSON-schema format named `response`, not strict, with neither description
/// nor schema.
pub open spec fn format_for_arg(arg: Option<ResponseFormatArg>, f: Option<ResponseFormat>) -> bool {
    match arg {
        None => f is None,
        Some(ResponseFormatArg::Text) => f == Some(ResponseFormat::Text),
        Some(ResponseFormatArg::JsonSchema) => f matches Some(ResponseFormat::JsonSchema { json_schema: s })
            && s.name@ == "response"@ && s.strict == Some(false) && s.description is None
            && s.schema is None,
    }
}

/// The stop setting that the stop flags stand for: none for no flag, the one
/// sequence for one flag, all of them in order for several.
pub open spec fn stop_for_flags(flags: Seq<String>, stop: Option<Stop>) -> bool {
    if flags.len() == 0 {
        stop is None
    } else if flags.len() == 1 {
        stop == Some(Stop::String(flags[0]))
    } else {
        stop matches Some(Stop::StringArray(v)) && v@ == flags
    }
}

/// The stop sequences that a stop setting holds, in order.
pub open spec fn stop_sequences(stop: Option<Stop>) -> Seq<String> {
    match stop {
        None => Seq::empty(),
        Some(Stop::String(x)) => seq![x],
        Some(Stop::StringArray(v)) => v@,
    }
}

/// The stop setting keeps every stop flag, in order: no setting for no flag,
/// a single sequence for one flag, and the list of all of them for two or
/// more.
pub proof fn lemma_stop_keeps_flags(flags: Seq<String>, stop: Option<Stop>)
    requires
        stop_for_flags(flags, stop),
    ensures
        stop_sequences(stop) == flags,
        flags.len() == 0 <==> stop is None,
        flags.len() == 1 <==> stop matches Some(Stop::String(_)),
        flags.len() >= 2 <==> stop matches Some(Stop::StringArray(_)),
{
    if flags.len() == 1 {
        assert(seq![flags[0]] =~= flags);
    }
}

/// The model of a request: the command line's, else the run-time
/// environment's, else the embedded default, else `gpt-3.5-turbo`.
pub proof fn lemma_model_precedence(cli: Option<String>, runtime: Option<String>, embedded: Option<String>)
    ensures
        cli matches Some(m) ==> model_for(cli, runtime, embedded) == m@,
        cli is None ==> (runtime matches Some(m) ==> model_for(cli, runtime, embedded) == m@),
        cli is None && runtime is None ==> (embedded matches Some(m) ==> model_for(
            cli,
            runtime,
            embedded,
        ) == m@),
        cli is None && runtime is None && embedded is None ==> model_for(cli, runtime, embedded)
            == "gpt-3.5-turbo"@,
{
}

/// Every setting of a built request follows the precedence of its sources:
/// a value given on the command line is taken; without one, the run-time
/// environment's value (read as a number where the setting is one); without
/// either, the embedded default; and with none, none (the model alone has
/// `gpt-3.5-turbo`). The stop setting holds all stop flags in order.
pub proof fn lemma_request_precedence(
    args: CommonArgs,
    env: RuntimeEnv,
    embedded: EmbeddedDefaults,
    embedded_sampling: SamplingSettings,
    r: LLMRequest,
)
    requires
        resolved(args, env, embedded, embedded_sampling, r),
    ensures
        r.prompt == args.prompt,
        args.model matches Some(m) ==> r.model@ == m@,
        args.model is None ==> (env.default_model matches Some(m) ==> r.model@ == m@),
        args.model is None && env.default_model is None ==> (embedded.default_model matches Some(m)
            ==> r.model@ == m@),
        args.model is None && env.default_model is None && embedded.default_model is None
            ==> r.model@ == "gpt-3.5-turbo"@,
        args.system is Some ==> r.system_prompt == args.system,
        args.system is None && env.system_prompt is Some ==> r.system_prompt == env.system_prompt,
        args.system is None && env.system_prompt is None ==> r.system_prompt
            == embedded.system_prompt,
        args.max_tokens is Some ==> r.max_completion_tokens == args.max_tokens,
        args.max_tokens is None && u32_setting(env.max_tokens) is Some ==> r.max_completion_tokens
            == u32_setting(env.max_tokens),
        args.max_tokens is None && u32_setting(env.max_tokens) is None ==> r.max_completion_tokens
            == u32_setting(embedded.max_tokens),
        args.temperature is Some ==> r.temperature == args.temperature,
        args.temperature is None && env.sampling.temperature is Some ==> r.temperature
            == env.sampling.temperature,
        args.temperature is None && env.sampling.temperature is None ==> r.temperature
            == embedded_sampling.temperature,
        args.top_p is Some ==> r.top_p == args.top_p,
        args.top_p is None && env.sampling.top_p is Some ==> r.top_p == env.sampling.top_p,
        args.top_p is None && env.sampling.top_p is None ==> r.top_p == embedded_sampling.top_p,
        args.frequency_penalty is Some ==> r.frequency_penalty == args.frequency_penalty,
        args.frequency_penalty is None && env.sampling.frequency_penalty is Some
            ==> r.frequency_penalty == env.sampling.frequency_penalty,
        args.frequency_penalty is None && env.sampling.frequency_penalty is None
            ==> r.frequency_penalty == embedded_sampling.frequency_penalty,
        args.presence_penalty is Some ==> r.presence_penalty == args.presence_penalty,
        args.presence_penalty is None && env.sampling.presence_penalty is Some
            ==> r.presence_penalty == env.sampling.presence_penalty,
        args.presence_penalty is None && env.sampling.presence_penalty is None
            ==> r.presence_penalty == embedded_sampling.presence_penalty,
        args.seed is Some ==> r.seed == args.seed,
        args.seed is None && i64_setting(env.seed) is Some ==> r.seed == i64_setting(env.seed),
        args.seed is None && i64_setting(env.seed) is None ==> r.seed == i64_setting(
            embedded.seed,
        ),
        args.json_schema is Some ==> r.json_schema == args.json_schema,
        args.json_schema is None && env.json_schema is Some ==> r.json_schema == env.json_schema,
        args.json_schema is None && env.json_schema is None ==> r.json_schema
            == embedded.json_schema,
        stop_sequences(r.stop) == args.stop@,
        args.stop@.len() == 1 <==> r.stop matches Some(Stop::String(_)),
        args.stop@.len() >= 2 <==> r.stop matches Some(Stop::StringArray(_)),
{
    lemma_model_precedence(args.model, env.default_model, embedded.default_model);
    lemma_stop_keeps_flags(args.stop@, r.stop);
}

fn format_from_arg(arg: Option<ResponseFormatArg>) -> (f: Option<ResponseFormat>)
    ensures
        format_for_arg(arg, f),
{
    match arg {
        None => None,
        Some(ResponseFormatArg::Text) => Some(ResponseFormat::Text),
        Some(ResponseFormatArg::JsonSchema) => Some(
            ResponseFormat::JsonSchema {
                json_schema: ResponseFormatJsonSchema {
                    description: None,
                    name: "response".to_string(),
                    schema: None,
                    strict: Some(false),
                },
            },
        ),
    }
}

fn stop_from_flags(flags: Vec<String>) -> (stop: Option<Stop>)
    ensures
        stop_for_flags(flags@, stop),
        stop_sequences(stop) == flags@,
        flags@.len() == 1 <==> stop matches Some(Stop::String(_)),
        flags@.len() >= 2 <==> stop matches Some(Stop::StringArray(_)),
{
    proof {
        if flags@.len() == 1 {
            assert(seq![flags@[0]] =~= flags@);
        }
    }
    let mut flags = flags;
    if flags.len() == 0 {
        None
    } else if flags.len() == 1 {
        Some(Stop::String(flags.swap_remove(0)))
    } else {
        Some(Stop::StringArray(flags))
    }
}

/// The model a request names: the first one given, else the built-in one.
pub open spec fn model_for(cli: Option<String>, runtime: Option<String>, embedded: Option<String>) -> Seq<char> {
    match first_present(cli, runtime, embedded) {
        Some(m) => m@,
        None => default_model(),
    }
}

/// The request that the command line, the run-time environment and the
/// embedded defaults give together, each setting by the precedence of
/// `first_present` (an embedded sampling value is `embedded_sampling`'s,
/// already read as a number).
pub open spec fn resolved(
    args: CommonArgs,
    env: RuntimeEnv,
    embedded: EmbeddedDefaults,
    embedded_sampling: SamplingSettings,
    r: LLMRequest,
) -> bool {
    &&& r.prompt == args.prompt
    &&& r.model@ == model_for(args.model, env.default_model, embedded.default_model)
    &&& r.system_prompt == first_present(args.system, env.system_prompt, embedded.system_prompt)
    &&& r.max_completion_tokens == first_present(
        args.max_tokens,
        u32_setting(env.max_tokens),
        u32_setting(embedded.max_tokens),
    )
    &&& format_for_arg(args.response_format, r.response_format)
    &&& stop_for_flags(args.stop@, r.stop)
    &&& r.temperature == first_present(
        args.temperature,
        env.sampling.temperature,
        embedded_sampling.temperature,
    )
    &&& r.top_p == first_present(args.top_p, env.sampling.top_p, embedded_sampling.top_p)
    &&& r.frequency_penalty == first_present(
        args.frequency_penalty,
        env.sampling.frequency_penalty,
        embedded_sampling.frequency_penalty,
    )
    &&& r.presence_penalty == first_present(
        args.presence_penalty,
        env.sampling.presence_penalty,
        embedded_sampling.presence_penalty,
    )
    &&& r.seed == first_present(args.seed, i64_setting(env.seed), i64_setting(embedded.seed))
    &&& r.json_schema == first_present(args.json_schema, env.json_schema, embedded.json_schema)
}

/// Builds the request from the command line, the run-time environment and the
/// embedded defaults. For each setting the command line wins over the
/// environment, which wins over the embedded default; the model falls back to
/// `gpt-3.5-turbo`. A number that does not read as one counts as absent.
pub fn build_request(
    args: CommonArgs,
    env: &RuntimeEnv,
    embedded: &EmbeddedDefaults,
    embedded_sampling: &SamplingSettings,
) -> (r: LLMRequest)
    ensures
        resolved(args, *env, *embedded, *embedded_sampling, r),
        args.model matches Some(m) ==> r.model@ == m@,
        args.model is None ==> (env.default_model matches Some(m) ==> r.model@ == m@),
        args.model is None && env.default_model is None ==> (embedded.default_model matches Some(m)
            ==> r.model@ == m@),
        args.model is None && env.default_model is None && embedded.default_model is None
            ==> r.model@ == "gpt-3.5-turbo"@,
        stop_sequences(r.stop) == args.stop@,
        args.stop@.len() == 1 <==> r.stop matches Some(Stop::String(_)),
        args.stop@.len() >= 2 <==> r.stop matches Some(Stop::StringArray(_)),
{
    proof {
        lemma_embedded_keys(*embedded);
    }
    let CommonArgs {
        prompt,
        model,
        system,
        max_tokens,
        response_format,
        stop,
        temperature,
        top_p,
        frequency_penalty,
        presence_penalty,
        seed,
        json_schema,
    } = args;

    let model = match pick_first(
        model,
        clone_text(&env.default_model),
        option_env_str("BUILD_DEFAULT_OPENAI_DEFAULT_MODEL", embedded),
    ) {
        Some(m) => m,
        None => "gpt-3.5-turbo".to_string(),
    };
    let system_prompt = pick_first(
        system,
        clone_text(&env.system_prompt),
        option_env_str("BUILD_DEFAULT_LLM_SYSTEM_PROMPT", embedded),
    );
    let max_completion_tokens = pick_first(
        max_tokens,
        parse_u32_setting(&env.max_tokens),
        parse_u32_setting(&option_env_str("BUILD_DEFAULT_LLM_MAX_TOKENS", embedded)),
    );
    let seed = pick_first(
        seed,
        parse_i64_setting(&env.seed),
        parse_i64_setting(&option_env_str("BUILD_DEFAULT_LLM_SEED", embedded)),
    );
    let json_schema = pick_first(
        json_schema,
        clone_text(&env.json_schema),
        option_env_str("BUILD_DEFAULT_LLM_JSON_SCHEMA", embedded),
    );

    LLMRequest {
        prompt,
        model,
        system_prompt,
        max_completion_tokens,
        response_format: format_from_arg(response_format),
        stop: stop_from_flags(stop),
        temperature: pick_first(temperature, env.sampling.temperature, embedded_sampling.temperature),
        top_p: pick_first(top_p, env.sampling.top_p, embedded_sampling.top_p),
        frequency_penalty: pick_first(
            frequency_penalty,
            env.sampling.frequency_penalty,
            embedded_sampling.frequency_penalty,
        ),
        presence_penalty: pick_first(
            presence_penalty,
            env.sampling.presence_penalty,
            embedded_sampling.presence_penalty,
        ),
        seed,
        json_schema,
    }
}

} // verus!
