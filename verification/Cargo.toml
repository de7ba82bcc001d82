[package]
name = "codex-session-manager"
version = "0.1.0"
edition = "2021"
publish = false

[dependencies]
anyhow = "1"
arboard = "3"
clap = { version = "4", features = ["derive"] }
codex-protocol = "*"
crossterm = "0.28"
ratatui = "0.29"
serde = { version = "1", features = ["derive"] }
serde_json = "1"
shell-words = "1"
sys-locale = "0.3"
tokio = { version = "1", features = ["full"] }
toml = "*"
toml_edit = "*"
