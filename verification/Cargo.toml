[package]
name = "interactions_core"
version = "0.1.0"
edition = "2021"
publish = false

[dependencies]
chrono = { version = "0.4", features = ["serde"] }
crossterm = "0.28"
dirs = "5"
flutter_rust_bridge = "2"
hex = "0.4"
rand = "0.8"
ratatui = "0.29"
rpassword = "7"
serde = { version = "1", features = ["derive"] }
serde_yaml = "0.9"
sha2 = "0.10"
thiserror = "1"
