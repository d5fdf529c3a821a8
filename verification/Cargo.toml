[package]
name = "coveralls"
version = "0.1.0"
edition = "2021"
publish = false

[dependencies]
clap = { version = "3.2", features = ["derive"] }
git2 = { version = "0.18", default-features = false }
itertools = "0.10"
regex = "1"
reqwest = { version = "0.11", features = ["blocking", "multipart"] }
serde = { version = "1", features = ["derive"] }
serde_json = "1"
simple-error = "0.2"
