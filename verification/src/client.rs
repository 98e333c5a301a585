//! The connection settings and the client that holds the service handle.

use vstd::prelude::*;

use async_openai::config::OpenAIConfig;

verus! {

broadcast use vstd::string::group_string_axioms;

#[verifier::external_type_specification]
#[verifier::external_body]
pub struct ExOpenAIConfig(async_openai::config::OpenAIConfig);

#[verifier::external_type_specification]
#[verifier::external_body]
pub struct ExHttpClientBuilder(reqwest::ClientBuilder);

#[verifier::external_type_specification]
#[verifier::external_body]
pub struct ExHttpClient(reqwest::Client);

#[verifier::external_type_specification]
#[verifier::external_body]
pub struct ExHttpError(reqwest::Error);

/// The service handle, an `async_openai::Client<OpenAIConfig>`. Its type
/// parameter is bounded by an outside trait, which cannot be declared here, so
/// the handle is held in this struct, whose inside stays opaque.
#[verifier::external_body]
pub struct ApiHandle {
    pub client: async_openai::Client<OpenAIConfig>,
}

/// What `<OpenAIConfig as Config>::api_base` returns: the base URL that every
/// call goes to.
pub uninterp spec fn openai_config_base(config: OpenAIConfig) -> Seq<char>;

/// What `<OpenAIConfig as Config>::api_key` holds (the secret's text): the key
/// that every call is authenticated with.
pub uninterp spec fn openai_config_key(config: OpenAIConfig) -> Seq<char>;

/// What `async_openai::Client::config` returns for the handle: the
/// configuration that every call made through the handle uses.
pub uninterp spec fn handle_config(handle: ApiHandle) -> OpenAIConfig;

/// The service's own base URL (`async_openai::config::OPENAI_API_BASE`).
pub open spec fn default_api_base() -> Seq<char> {
    "https://api.openai.com/v1"@
}

/// The settings for connecting to an OpenAI-compatible service.
#[derive(Clone, Debug, PartialEq)]
pub struct ClientConfig {
    /// The API key.
    pub api_key: String,
    /// The API's base URL; the service's own (https://api.openai.com/v1)
    /// where none is given.
    pub base_url: Option<String>,
}

impl Default for ClientConfig {
    /// An empty key and no base URL.
    fn default() -> (r: Self)
        ensures
            r.api_key@ == Seq::<char>::empty(),
            r.base_url is None,
    {
        ClientConfig { api_key: String::new(), base_url: None }
    }
}

/// Why no client could be made.
#[derive(Debug)]
pub enum ConfigError {
    /// The environment gives no API key.
    MissingApiKey,
    /// The HTTP client could not be set up (no TLS backend, or the system's
    /// resolver configuration or root certificates could not be loaded); the
    /// cause is kept.
    HttpClient(reqwest::Error),
}

/// The message of each configuration error.
pub open spec fn config_error_message(e: ConfigError) -> Seq<char> {
    match e {
        ConfigError::MissingApiKey => "Переменная окружения OPENAI_API_KEY не найдена. Установите её командой 'export OPENAI_API_KEY=sk-...' или создайте файл .env"@,
        ConfigError::HttpClient(_) => "Не удалось создать HTTP-клиент"@,
    }
}

impl ConfigError {
    /// The error's message, for the user.
    pub fn message(&self) -> (r: String)
        ensures
            r@ == config_error_message(*self),
    {
        match self {
            ConfigError::MissingApiKey => "Переменная окружения OPENAI_API_KEY не найдена. Установите её командой 'export OPENAI_API_KEY=sk-...' или создайте файл .env".to_string(),
            ConfigError::HttpClient(_) => "Не удалось создать HTTP-клиент".to_string(),
        }
    }
}

/// Checks the value of the `OPENAI_API_KEY` variable (`None` where it is not
/// set): the key when there is one, an error otherwise.
pub fn validate_api_key(value: Option<String>) -> (r: Result<String, ConfigError>)
    ensures
        value matches Some(k) ==> r == Ok::<String, ConfigError>(k),
        value is None ==> r matches Err(ConfigError::MissingApiKey),
{
    match value {
        Some(k) => Ok(k),
        None => Err(ConfigError::MissingApiKey),
    }
}

/// `async_openai::config::OpenAIConfig::default`: the base URL is the
/// service's own. The key is read from `OPENAI_API_KEY`, so nothing is
/// claimed of it; the library always replaces it afterwards.
#[verifier::external_body]
fn default_openai_config() -> (r: OpenAIConfig)
    ensures
        openai_config_base(r) == default_api_base(),
{
    OpenAIConfig::default()
}

/// `OpenAIConfig::with_api_key`: the configuration with the key replaced and
/// the base URL kept.
#[verifier::external_body]
fn config_with_api_key(config: OpenAIConfig, api_key: &str) -> (r: OpenAIConfig)
    ensures
        openai_config_key(r) == api_key@,
        openai_config_base(r) == openai_config_base(config),
{
    config.with_api_key(api_key)
}

/// `OpenAIConfig::with_api_base`: the configuration with the base URL
/// replaced and the key kept.
#[verifier::external_body]
fn config_with_api_base(config: OpenAIConfig, api_base: &str) -> (r: OpenAIConfig)
    ensures
        openai_config_base(r) == api_base@,
        openai_config_key(r) == openai_config_key(config),
{
    config.with_api_base(api_base)
}

/// `reqwest::ClientBuilder::new`: a builder with the default HTTP settings.
#[verifier::external_body]
fn http_client_builder() -> (r: reqwest::ClientBuilder) {
    reqwest::ClientBuilder::new()
}

/// `reqwest::ClientBuilder::build`. It fails where no TLS backend can be set
/// up or the system's resolver configuration or root certificates cannot be
/// loaded, which depends on the machine, so nothing is claimed of the
/// outcome.
#[verifier::external_body]
fn build_http_client(builder: reqwest::ClientBuilder) -> (r: Result<reqwest::Client, reqwest::Error>) {
    builder.build()
}

/// `async_openai::Client::build` with the default retry policy: a handle that
/// makes its calls with the given HTTP client and configuration.
#[verifier::external_body]
fn handle_with(http: reqwest::Client, config: OpenAIConfig) -> (r: ApiHandle)
    ensures
        handle_config(r) == config,
{
    ApiHandle { client: async_openai::Client::build(http, config, Default::default()) }
}

/// The handle's calls go to the settings' base URL (the service's own where
/// none is given) and are authenticated with the settings' key.
pub open spec fn uses_settings(handle: ApiHandle, config: ClientConfig) -> bool {
    &&& openai_config_key(handle_config(handle)) == config.api_key@
    &&& openai_config_base(handle_config(handle)) == match config.base_url {
        Some(b) => b@,
        None => default_api_base(),
    }
}

/// A client for an OpenAI-compatible service. It keeps the settings it was
/// made with beside the service handle made from them.
pub struct OpenAIClient {
    client: ApiHandle,
    config: ClientConfig,
}

impl View for OpenAIClient {
    type V = ClientConfig;

    /// The settings the client was made with.
    closed spec fn view(&self) -> ClientConfig {
        self.config
    }
}

impl OpenAIClient {
    /// The service handle the client holds, made from its settings when the
    /// client was made; the same handle serves every call.
    pub closed spec fn handle(&self) -> ApiHandle {
        self.client
    }

    /// A client for the given settings over the given HTTP client (or the
    /// error met while setting one up): the key replaces whatever the
    /// environment holds, and the base URL, where given, replaces the
    /// service's own.
    pub fn with_http_client(config: ClientConfig, http: Result<reqwest::Client, reqwest::Error>) -> (r: Result<OpenAIClient, ConfigError>)
        ensures
            http matches Err(e) ==> r matches Err(ConfigError::HttpClient(e2)) && e2 == e,
            http is Ok ==> r is Ok,
            r matches Ok(c) ==> c@ == config && uses_settings(c.handle(), config),
    {
        let http = match http {
            Ok(h) => h,
            Err(e) => {
                return Err(ConfigError::HttpClient(e));
            },
        };
        let mut openai_config = config_with_api_key(default_openai_config(), config.api_key.as_str());
        match &config.base_url {
            Some(base_url) => {
                openai_config = config_with_api_base(openai_config, base_url.as_str());
            },
            None => {},
        }
        Ok(OpenAIClient { client: handle_with(http, openai_config), config })
    }

    /// A client for the given settings, over a fresh HTTP client. It fails
    /// only where the machine cannot set up an HTTP client.
    pub fn new(config: ClientConfig) -> (r: Result<OpenAIClient, ConfigError>)
        ensures
            r matches Ok(c) ==> c@ == config && uses_settings(c.handle(), config),
            r matches Err(e) ==> e is HttpClient,
    {
        OpenAIClient::with_http_client(config, build_http_client(http_client_builder()))
    }

    /// A client from the environment's values of `OPENAI_API_KEY` (required)
    /// and `OPENAI_BASE_URL` (optional); `None` stands for an unset variable.
    /// With a key it behaves as `new` with that key and base URL.
    pub fn from_env(api_key_var: Option<String>, base_url_var: Option<String>) -> (r: Result<OpenAIClient, ConfigError>)
        ensures
            api_key_var is None ==> r matches Err(ConfigError::MissingApiKey),
            api_key_var is Some ==> (r is Ok || r matches Err(ConfigError::HttpClient(_))),
            r matches Ok(c) ==> c@ == (ClientConfig { api_key: api_key_var->0, base_url: base_url_var })
                && uses_settings(c.handle(), c@),
    {
        match validate_api_key(api_key_var) {
            Ok(api_key) => OpenAIClient::new(ClientConfig { api_key, base_url: base_url_var }),
            Err(e) => Err(e),
        }
    }

    /// The settings the client was made with.
    pub fn config(&self) -> (r: &ClientConfig)
        ensures
            *r == self@,
    {
        &self.config
    }

    /// The service handle, for making calls.
    pub fn api(&self) -> (r: &ApiHandle)
        ensures
            *r == self.handle(),
    {
        &self.client
    }
}

} // verus!
