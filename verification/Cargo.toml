[package]
name = "rustcraft"
version = "0.1.0"
edition = "2021"
publish = false

[dependencies]
serde = { version = "=1.0.229", features = ["derive"] }
serde_json = "=1.0.154"
zip = { version = "*", default-features = false, features = ["deflate"] }
image = { version = "*", default-features = false, features = ["png"] }
