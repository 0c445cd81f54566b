[package]
name = "repo_zipper"
version = "0.1.0"
edition = "2021"
publish = false

[dependencies]
zip = { version = "=8.6.0", default-features = false, features = ["deflate"] }
semver = "=1.0.28"
serde = { version = "1", features = ["derive"] }
serde_json = "1"
serde_yaml = "*"
reqwest = { version = "*", default-features = false, features = ["blocking", "json", "multipart"] }
walkdir = "2"
clap = { version = "4", features = ["derive"] }
dialoguer = "*"
anyhow = "1"
tempfile = "3"
