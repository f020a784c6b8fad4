[package]
name = "philipshue"
version = "0.1.0"
edition = "2021"
publish = false

[dependencies]
serde_json = "1"
serde = { version = "1", features = ["derive"] }
hyper = "0.10"
ssdp = "*"
