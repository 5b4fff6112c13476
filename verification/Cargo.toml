[package]
name = "script_runner"
version = "0.1.0"
edition = "2021"
publish = false

[dependencies]
tokio = { version = "1", features = ["rt", "macros", "sync"] }
