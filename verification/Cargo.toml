[package]
name = "pastebin"
version = "0.1.0"
edition = "2021"
publish = false

[dependencies]
rand = "0.8"
axum = "0.6"
tokio = { version = "1", features = ["rt-multi-thread", "macros", "signal"] }
tower-http = { version = "0.4", features = ["fs"] }
mongodb = "2"
serde = { version = "1", features = ["derive"] }
