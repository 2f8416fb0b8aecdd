[package]
name = "emoji_resizer"
version = "0.1.0"
edition = "2021"
publish = false

[dependencies]
anyhow = "1"
axum = "0.7"
image = { version = "0.25", default-features = false, features = ["gif", "jpeg", "png", "webp"] }
moka = { version = "0.12", features = ["sync"] }
once_cell = "1"
reqwest = { version = "0.12", default-features = false, features = ["http2", "rustls-tls"] }
sha1 = "0.10"
tokio = { version = "1", features = ["macros", "net", "rt-multi-thread", "signal"] }
tracing = "0.1"
tracing-subscriber = { version = "0.3", features = ["env-filter"] }
