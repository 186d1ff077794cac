[package]
name = "gameserver"
version = "0.1.0"
edition = "2021"
publish = false

[dependencies]
anyhow = "=1.0.104"
axum = "=0.7.9"
axum-server = "0.7"
dirs = "=5.0.1"
dotenv = "=0.15.0"
tokio = { version = "=1.54.1", features = ["macros", "rt-multi-thread", "net", "sync"] }
tracing = "=0.1.44"
tracing-subscriber = "=0.3.23"
