[package]
name = "slacks"
version = "0.1.0"
edition = "2021"
publish = false

[dependencies]
docopt = "1"
reqwest = { version = "0.12", features = ["blocking"] }
serde = { version = "1", features = ["derive"] }
serde_json = "1"

[dev-dependencies]
regex = "1"
