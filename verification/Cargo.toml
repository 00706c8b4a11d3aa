[package]
name = "golem_tts"
version = "0.1.0"
edition = "2021"
publish = false

[dependencies]
golem-rust = "=1.7.7"
golem-rust-macro = "=1.7.7"
golem-wasm-rpc = { version = "=1.3.0-dev.28", default-features = false, features = ["stub"] }
