use ai_cli_assistant::{validate_api_key, ClientConfig, ConfigError, OpenAIClient};
use async_openai::config::Config;

#[test]
fn test_client_config_default() {
    let config = ClientConfig::default();
    assert!(config.api_key.is_empty());
    assert!(config.base_url.is_none());
}

#[test]
fn test_client_config_custom() {
    let config = ClientConfig {
        api_key: "test-key".to_string(),
        base_url: Some("http://localhost:1234/v1".to_string()),
    };
    assert_eq!(config.api_key, "test-key");
    assert_eq!(config.base_url, Some("http://localhost:1234/v1".to_string()));
}

#[test]
fn test_client_creation_does_not_panic() {
    let config = ClientConfig {
        api_key: "test-key".to_string(),
        base_url: Some("http://localhost:1234/v1".to_string()),
    };
    let _client = OpenAIClient::new(config).unwrap();
}

#[test]
fn test_client_creation_without_base_url() {
    let config = ClientConfig {
        api_key: "test-key".to_string(),
        base_url: None,
    };
    let _client = OpenAIClient::new(config).unwrap();
}

#[test]
fn test_validate_api_key_present() {
    let result = validate_api_key(Some("sk-test-key".to_string()));
    assert!(result.is_ok());
    assert_eq!(result.unwrap(), "sk-test-key");
}

#[test]
fn test_validate_api_key_missing_returns_error() {
    let result = validate_api_key(None);
    assert!(result.is_err());
    assert!(result.unwrap_err().message().contains("OPENAI_API_KEY"));
}

#[test]
fn client_keeps_its_settings() {
    let config = ClientConfig {
        api_key: "k".to_string(),
        base_url: Some("http://localhost:11434/v1".to_string()),
    };
    let client = OpenAIClient::new(config.clone()).unwrap();
    assert_eq!(client.config(), &config);
    assert_eq!(client.api().client.config().api_base(), "http://localhost:11434/v1");
}

#[test]
fn client_without_base_url_uses_service_base() {
    let client = OpenAIClient::new(ClientConfig { api_key: "k".to_string(), base_url: None }).unwrap();
    assert_eq!(client.api().client.config().api_base(), "https://api.openai.com/v1");
}

#[test]
fn from_env_needs_the_key() {
    let missing = OpenAIClient::from_env(None, Some("http://x/v1".to_string()));
    assert!(matches!(missing, Err(ConfigError::MissingApiKey)));
    let client = OpenAIClient::from_env(Some("sk".to_string()), Some("http://x/v1".to_string())).ok().unwrap();
    assert_eq!(
        client.config(),
        &ClientConfig { api_key: "sk".to_string(), base_url: Some("http://x/v1".to_string()) }
    );
    assert_eq!(client.api().client.config().api_base(), "http://x/v1");
}

#[test]
fn http_client_error_is_reported() {
    let bad = reqwest::ClientBuilder::new()
        .min_tls_version(reqwest::tls::Version::TLS_1_3)
        .max_tls_version(reqwest::tls::Version::TLS_1_2)
        .build();
    assert!(bad.is_err());
    let r = OpenAIClient::with_http_client(ClientConfig::default(), bad);
    match r {
        Err(e @ ConfigError::HttpClient(_)) => assert!(!e.message().is_empty()),
        _ => panic!("expected an HTTP client error"),
    }
    let good = reqwest::ClientBuilder::new().build();
    let c = OpenAIClient::with_http_client(ClientConfig::default(), good).ok().unwrap();
    assert_eq!(c.api().client.config().api_base(), "https://api.openai.com/v1");
}
