[package]
name = "llm_security_core"
version = "0.1.0"
edition = "2021"
publish = false

[dependencies]
chrono = "*"
hex = "*"
hmac = "*"
sha2 = "*"
uuid = { version = "*", features = ["v4"] }
axum = "*"
tokio = { version = "*", features = ["macros", "rt-multi-thread", "signal", "net"] }
serde = { version = "*", features = ["derive"] }
serde_json = "*"
tracing = "*"
tracing-subscriber = "*"
thiserror = "*"
