[package]
name = "phantom_host"
version = "0.1.0"
edition = "2021"
publish = false

[dependencies]
anyhow = "*"
axum = "*"
dotenv = "*"
phantom-frame = "*"
rust-embed = "*"
tokio = { version = "*", features = ["macros", "rt-multi-thread", "net"] }
tower = "*"
tracing = "*"
tracing-subscriber = { version = "*", features = ["env-filter"] }
