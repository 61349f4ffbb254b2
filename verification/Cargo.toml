[package]
name = "quickrun"
version = "0.1.0"
edition = "2021"
publish = false

[dependencies]
device_query = "1"
enigo = "0.1"
serde = { version = "1", features = ["derive"] }
