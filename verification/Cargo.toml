[package]
name = "rustnot"
version = "0.1.0"
edition = "2021"
publish = false

[dependencies]
iced = { version = "0.4", features = ["tokio"] }
notify-rust = "4"
parking_lot = "0.12"
serde = { version = "1", features = ["derive"] }
thiserror = "1"
tokio = { version = "1", features = ["time", "macros"] }
toml = "0.5"
