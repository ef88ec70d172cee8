[package]
name = "pixelflut"
version = "0.1.0"
edition = "2021"
publish = false

[dependencies]
arrayvec = "*"
bit-set = "*"
rand = "*"
serde = { version = "*", features = ["derive"] }
async-channel = "*"
futures = "*"
monoio = "*"
