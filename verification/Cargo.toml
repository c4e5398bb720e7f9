[package]
name = "soundclip_core"
version = "0.1.0"
edition = "2021"
publish = false

[dependencies]
dirs = "*"
zip = { version = "*", default-features = false, features = ["deflate"] }
reqwest = { version = "*", default-features = false }
serde = { version = "1", features = ["derive"] }
serde_json = "1"
tokio = { version = "1", features = ["rt-multi-thread", "macros", "process", "io-util", "sync"] }
