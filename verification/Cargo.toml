[package]
name = "hyperray"
version = "0.1.0"
edition = "2021"
publish = false

[dependencies]
serde = { version = "*", features = ["derive"] }
serde_json = "*"
cgmath = "*"
bytemuck = { version = "*", features = ["derive"] }
ga_generator = "*"
