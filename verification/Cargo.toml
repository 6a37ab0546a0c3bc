[package]
name = "rust_standup_ai"
version = "0.1.0"
edition = "2021"
publish = false

[dependencies]
cpal = "*"
dotenv = "*"
reqwest = { version = "*", default-features = false, features = ["json", "multipart"] }
serde_json = "*"
tokio = { version = "*", features = ["macros", "rt-multi-thread"] }

[dev-dependencies]
hound = "*"
