[package]
name = "pomors"
version = "0.1.0"
edition = "2021"
publish = false

[dependencies]
chrono = "0.4"
clap = { version = "4", features = ["derive"] }
crossterm = "0.25"
home = "0.5"
rusty_audio = "*"
serde = { version = "1", features = ["derive"] }
serde_json = "1"
tui = "0.19"
