[package]
name = "assistant_relay"
version = "0.1.0"
edition = "2021"
rust-version = "1.95"
publish = false

[dependencies]
serde_json = "=1.0.154"
async-openai = "=0.18.3"
tg-flows = "=0.4.0"
store-flows = "=0.3.2"
flowsnet-platform-sdk = "=0.1.6"
reqwest = { version = "=0.11.27", default-features = false, features = ["multipart", "json", "rustls-tls"] }
tokio = { version = "=1.54.1", features = ["macros", "rt", "fs", "io-util", "time"] }
log = "=0.4.34"
takecell = "<0.1.2"
