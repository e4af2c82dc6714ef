[package]
name = "relay_bot"
version = "0.1.0"
edition = "2021"
publish = false

[dependencies]
anyhow = "=1.0.104"
dotenvy = "=0.15.7"
log = "=0.4.34"
ratelimit = "=0.9.1"
sqlite = "=0.37.4"
tgbot = { version = "=0.48.1", features = ["webhook"] }
tokio = { version = "=1.54.1", features = ["macros", "rt-multi-thread"] }
tracing-subscriber = "=0.3.23"
