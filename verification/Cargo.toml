[package]
name = "else_model"
version = "0.1.0"
edition = "2021"
publish = false

[dependencies]
serde = { version = "=1.0.229", features = ["derive"] }
bincode = { version = "=2.0.1", features = ["serde"] }
thiserror = "=2.0.21"
chrono = "0.4"
