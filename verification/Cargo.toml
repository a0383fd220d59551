[package]
name = "llam"
version = "0.1.0"
edition = "2021"
publish = false

[dependencies]
serde_json = "1"
uuid = { version = "1", features = ["v7"] }
clap = { version = "4", features = ["derive"] }
owo-colors = "4"
