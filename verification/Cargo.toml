[package]
name = "ftms"
version = "0.1.0"
edition = "2021"
publish = false

[dependencies]
anyhow = "1"
base64 = "0.22"
chrono = "0.4"
parking_lot = "0.12"
pdf-extract = "*"
rusqlite = { version = "*", features = ["bundled"] }
serde = { version = "1", features = ["derive"] }
shellexpand = "3"
tokio = { version = "1", features = ["fs"] }
uuid = { version = "1", features = ["v4"] }
