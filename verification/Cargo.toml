[package]
name = "npc_mind"
version = "0.1.0"
edition = "2021"
publish = false

[dependencies]
uuid = { version = "1", features = ["v4"] }
rand = "0.8"
openai_api_rust = "*"
serde = { version = "1", features = ["derive"] }
serde_json = "1"
