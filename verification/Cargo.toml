[package]
name = "resume"
version = "0.1.0"
edition = "2021"
publish = false

[dependencies]
clap = { version = "4.4.6", features = ["derive"] }
notify = "6"
regex = "1.10"
serde = { version = "1.0", features = ["derive"] }
serde_yaml = "0.9"
