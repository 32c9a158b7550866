[package]
name = "js_sidecar"
version = "0.1.0"
edition = "2021"
publish = false

[dependencies]
serde = { version = "*", features = ["derive"] }
serde_json = "*"
tokio = { version = "*", features = ["net", "process", "io-util", "sync", "time", "rt", "rt-multi-thread", "fs", "macros"] }
deadpool = "*"
nix = { version = "*", features = ["signal", "process"] }
tempfile = "*"
