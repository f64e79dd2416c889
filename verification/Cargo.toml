[package]
name = "goose_cli"
version = "0.1.0"
edition = "2021"
publish = false

[dependencies]
anyhow = "=1.0.104"
bat = { version = "=0.24.0", default-features = false, features = ["regex-fancy"] }
clap = { version = "=4.6.7", features = ["derive"] }
cliclack = "=0.3.8"
console = "=0.15.11"
rustyline = "=14.0.0"
serde_json = "=1.0.154"
tokio = { version = "=1.54.1", features = ["macros", "rt-multi-thread", "signal"] }
