[package]
name = "unknown_yet"
version = "0.1.0"
edition = "2021"
publish = false

[dependencies]
clap = { version = "4", features = ["derive"] }
crossterm = "*"
rand = "0.9"
rustix = { version = "1", features = ["termios"] }
tokio = { version = "1", features = ["rt", "sync"] }
zbus = "5"
