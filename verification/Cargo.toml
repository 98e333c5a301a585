[package]
name = "ai_cli_assistant"
version = "0.1.0"
edition = "2021"
publish = false

[dependencies]
async-openai = "=0.29.6"
serde = { version = "=1.0.229", features = ["derive"] }
serde_json = "=1.0.154"
reqwest = { version = "=0.12.28", default-features = false }
anyhow = "=1.0.104"
clap = { version = "=4.6.7", features = ["derive"] }
console = "=0.16.6"
dotenvy = "=0.15.7"
futures = "=0.3.34"
indicatif = "=0.18.6"
tokio = { version = "=1.54.1", features = ["macros", "rt-multi-thread"] }
