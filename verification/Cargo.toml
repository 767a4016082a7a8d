[package]
name = "pinpoint"
version = "0.1.0"
edition = "2021"
publish = false

[dependencies]
anyhow = "1"
chrono = "0.4"
clap = { version = "4", features = ["derive"] }
dirs = "*"
rusqlite = { version = "*", features = ["bundled"] }
tabled = "*"
