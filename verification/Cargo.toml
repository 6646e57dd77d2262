[package]
name = "llama_server_loader"
version = "0.1.0"
edition = "2021"
publish = false

[dependencies]
ratatui = { version = "=0.29.0", features = ["unstable-rendered-line-info"] }
crossterm = "=0.28.1"
tui-input = "=0.11.1"
ansi-to-tui = "=7.0.0"
nvml-wrapper = "=0.11.0"
nix = { version = "=0.29.0", features = ["signal"] }
directories = "=5.0.1"
serde = { version = "=1.0.229", features = ["derive"] }
serde_json = "=1.0.154"
