[package]
name = "aishell"
version = "0.1.0"
edition = "2021"
publish = false

[dependencies]
serde_json = "=1.0.151"
async-openai = { version = "=0.42.1", features = ["chat-completion"] }
eyre = "=0.6.14"
rustyline = "=18.0.1"
serde = { version = "=1.0.229", features = ["derive"] }
tokio = { version = "=1.53.2", features = ["rt-multi-thread", "macros", "process"] }
tracing = "=0.1.44"
tracing-subscriber = "=0.3.23"
