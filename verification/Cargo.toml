[package]
name = "openai_whisper"
version = "0.1.0"
edition = "2021"
publish = false

[dependencies]
async-trait = "0.1"
log = "0.4"
reqwest = { version = "0.12", features = ["json", "multipart"] }
serde_json = "1"
tokio = { version = "1", features = ["sync"] }
