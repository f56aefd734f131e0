[package]
name = "frontegg"
version = "0.1.0"
edition = "2021"
publish = false

[dependencies]
uuid = { version = "1", features = ["serde", "v4"] }
reqwest = { version = "*", default-features = false, features = ["json"] }
tokio = { version = "*", features = ["sync", "time", "rt", "macros"] }
serde = { version = "*", features = ["derive"] }
serde_json = "*"
time = { version = "*", features = ["serde-well-known", "formatting", "parsing"] }
