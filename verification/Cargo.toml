[package]
name = "agaro_relay"
version = "0.1.0"
edition = "2021"
publish = false

[dependencies]
anyhow = "1"
chrono = { version = "0.4", default-features = false, features = ["clock"] }
colored = "2"
dotenvy = "0.15"
reqwest = { version = "0.11", default-features = false, features = ["json"] }
serde_json = "1"
tiny-keccak = { version = "2", features = ["keccak"] }
tokio = { version = "1", features = ["macros", "rt-multi-thread", "time"] }
