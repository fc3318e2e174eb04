[package]
name = "llm_wiki_desktop"
version = "0.1.0"
edition = "2021"
publish = false

[dependencies]
base64 = "*"
sha2 = "*"
serde_json = "*"
rusqlite = { version = "*", features = ["bundled"] }
uuid = { version = "*", features = ["v4"] }
chrono = "*"
