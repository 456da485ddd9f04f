[package]
name = "solang_server"
version = "0.1.0"
edition = "2021"
publish = false

[dependencies]
tower-lsp = "=0.20.0"
tokio = { version = "=1.53.2", features = ["rt-multi-thread", "macros", "io-std", "io-util"] }
serde_json = "=1.0.151"
