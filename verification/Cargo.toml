[package]
name = "chat_app"
version = "0.1.0"
edition = "2021"
publish = false

[dependencies]
rand = "0.9"
anyhow = "1"
tokio = { version = "1", default-features = false, features = ["sync", "rt-multi-thread", "macros", "io-util", "time"] }
postcard = { version = "1", default-features = false, features = ["use-std"] }
serde = { version = "1", features = ["derive"] }
sqlite = "*"
iroh = "*"
iroh-ping = "*"
iroh-tickets = "*"
tracing-subscriber = "0.3"
