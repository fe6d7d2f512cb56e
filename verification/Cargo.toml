[package]
name = "multi_transport"
version = "0.1.0"
edition = "2021"
publish = false

[dependencies]
rand = "0.9"
serde = { version = "1", features = ["derive"] }
ron = "*"
clap = { version = "4", features = ["derive"] }
strum = { version = "0.27", features = ["derive"] }
tempfile = "3"
