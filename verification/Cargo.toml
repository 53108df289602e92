[package]
name = "pokespeak"
version = "0.1.0"
edition = "2021"
publish = false

[dependencies]
percent-encoding = "2"
reqwest = { version = "0.12", default-features = false, features = ["json"] }
serde = { version = "1", features = ["derive"] }
tokio = { version = "1", features = ["macros", "rt-multi-thread"] }
warp = "0.3"
tracing = "0.1"
tracing-subscriber = "0.3"
