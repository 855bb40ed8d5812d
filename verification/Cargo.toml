[package]
name = "mistralai-client"
version = "0.14.0"
edition = "2021"
publish = false

[dependencies]
async-trait = "0.1"
base64 = "0.22"
eventsource-stream = "0.2"
futures = "0.3"
log = "0.4"
mime_guess = "2"
reqwest = { version = "0.12", features = ["json", "blocking", "stream"] }
serde = { version = "1", features = ["derive"] }
serde_json = "1"
thiserror = "1"
tokio = { version = "1", features = ["rt-multi-thread", "macros"] }
