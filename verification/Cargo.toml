[package]
name = "ikki_session"
version = "0.1.0"
edition = "2021"
publish = false

[dependencies]
bip0039 = "*"
rusqlite = { version = "*", features = ["bundled"] }
dirs = "*"
serde = { version = "1", features = ["derive"] }
serde_json = "1"
tokio = { version = "1", features = ["rt-multi-thread", "macros", "sync", "time"] }
