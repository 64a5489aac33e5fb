[package]
name = "rubicon"
version = "0.1.0"
edition = "2021"
publish = false

[dependencies]
bincode = "1.3"
clap = { version = "4", features = ["derive"] }
serde = { version = "1", features = ["derive"] }
thread-priority = "*"
