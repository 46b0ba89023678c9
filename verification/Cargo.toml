[package]
name = "tofa"
version = "0.1.0"
edition = "2021"
publish = false

[dependencies]
zeroize = "1"
anyhow = "1"
arboard = { version = "3", default-features = false }
chrono = "0.4"
clap = { version = "4", features = ["derive", "env"] }
clap_complete = "4"
crossterm = "*"
dirs = "*"
ratatui = "*"
rpassword = "7"
serde_json = "1"
tui-big-text = "*"
