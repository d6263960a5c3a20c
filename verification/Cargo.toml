[package]
name = "rotorlab"
version = "0.1.0"
edition = "2021"
publish = false

[dependencies]
ash = "0.38"
image = { version = "0.25", default-features = false, features = ["png"] }
thiserror = "2"
bytemuck = { version = "1", features = ["derive"] }
rotorlab-ga = "*"

[dev-dependencies]
tempfile = "3"
