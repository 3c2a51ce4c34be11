[package]
name = "catan"
version = "0.1.0"
edition = "2021"
publish = false

[dependencies]
once_cell = "=1.21.4"
rand = "0.9"
serde = { version = "=1.0.229", features = ["derive"] }
