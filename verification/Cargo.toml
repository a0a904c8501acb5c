[package]
name = "gateway"
version = "0.1.0"
edition = "2021"
publish = false

[dependencies]
serde = { version = "*", features = ["derive"] }
serde_json = "*"
r2d2 = "*"
r2d2_postgres = "*"
rocket = { version = "*", features = ["json"] }
