[package]
name = "twitch_tui"
version = "0.1.0"
edition = "2021"
publish = false

[dependencies]
tui = { version = "0.19", default-features = false }
rustyline = "10"
tokio = { version = "1", default-features = false, features = ["sync"] }
once_cell = "1"
