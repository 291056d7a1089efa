[package]
name = "marketplace"
version = "0.1.0"
edition = "2021"
publish = false

[dependencies]
nostr-sdk = { version = "0.44.1", default-features = false }
serde = { version = "1", features = ["derive"] }
serde_json = "1"
uuid = { version = "1", features = ["v4"] }
tokio = { version = "1", features = ["macros", "rt-multi-thread", "time"] }
dotenv = "0.15"
