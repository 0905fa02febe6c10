[package]
name = "wakatime_ls"
version = "0.1.0"
edition = "2021"
publish = false

[dependencies]
arc-swap = "*"
chrono = "*"
clap = "*"
serde = { version = "*", features = ["derive"] }
serde_json = "*"
tokio = { version = "*", features = ["io-std", "macros", "process", "rt-multi-thread", "sync"] }
tower-lsp = "*"
url = "*"
