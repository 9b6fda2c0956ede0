[package]
name = "discline"
version = "0.1.0"
edition = "2021"
publish = false

[dependencies]
serde_json = "*"
rand = "*"
serde = { version = "*", features = ["derive"] }
reqwest = { version = "*", default-features = false, features = ["json"] }
tokio = { version = "*", features = ["rt-multi-thread", "macros", "time", "net", "sync"] }
tokio-tungstenite = "*"
futures-util = "*"
chrono = { version = "*", features = ["serde"] }
thiserror = "*"
anyhow = "*"
dirs = "*"
dotenvy = "*"
toml = "*"
