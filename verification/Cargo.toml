[package]
name = "oauth_handoff"
version = "0.1.0"
edition = "2021"
publish = false

[dependencies]
serde_json = "1"
uuid = { version = "1", features = ["v4"] }
reqwest = { version = "0.11", default-features = false, features = ["json", "rustls-tls"] }
tokio = { version = "1", features = ["macros", "rt"] }
webhook-flows = "*"
store-flows = "*"
flowsnet-platform-sdk = "*"
