[package]
name = "clipcopy"
version = "0.1.0"
edition = "2021"
publish = false

[dependencies]
arboard = "*"
base64 = "*"
image = { version = "*", default-features = false, features = ["png"] }
serde = { version = "*", features = ["derive"] }
serde_json = "*"
tokio = { version = "*", features = ["rt-multi-thread"] }
