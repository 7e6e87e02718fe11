[package]
name = "tg_ai_moderator"
version = "0.1.0"
edition = "2021"
publish = false

[dependencies]
serde_json = "1"
serde = { version = "1", features = ["derive"] }
jiff = "*"
minijinja = "*"
ahash = "*"
arc-swap = "*"
async-trait = "*"
axum = "*"
clap = { version = "4", features = ["derive"] }
dirs = "*"
eyre = "*"
fjall = "2"
frankenstein = { version = "*", features = ["client-reqwest"] }
futures = "*"
parking_lot = "*"
reqwest = { version = "*", features = ["json", "stream"] }
tokio = { version = "1", features = ["full"] }
tokio-util = { version = "*", features = ["io"] }
tracing = "*"
tracing-subscriber = { version = "*", features = ["env-filter"] }
url = "*"
