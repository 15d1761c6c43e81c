[package]
name = "oxitime"
version = "0.1.0"
edition = "2021"
publish = false

[dependencies]
anyhow = "=1.0.104"
clap = { version = "=4.6.7", default-features = false, features = ["std", "derive", "help", "usage", "error-context"] }
crossterm = { version = "=0.28.1", default-features = false, features = ["events"] }
dirs = "=5.0.1"
humantime = "=2.4.0"
notify-rust = "=4.18.2"
rodio = { version = "=0.20.1", default-features = false, features = ["wav"] }
serde = { version = "=1.0.229", features = ["derive"] }
toml = "=0.8.23"
