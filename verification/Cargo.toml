[package]
name = "yomiage"
version = "0.1.0"
edition = "2021"
publish = false

[dependencies]
actix-files = "*"
actix-web = { version = "4", default-features = false }
anyhow = "1"
askama = "*"
askama_web = { version = "*", features = ["actix-web-4"] }
blake3 = { version = "1", features = ["pure"] }
hound = "3"
reqwest = { version = "0.12", default-features = false }
serde = { version = "1", features = ["derive"] }
tokio = { version = "1", features = ["rt-multi-thread", "macros", "time"] }
toml = "*"
tracing = "0.1"
tracing-actix-web = "*"
tracing-subscriber = { version = "0.3", features = ["env-filter"] }
