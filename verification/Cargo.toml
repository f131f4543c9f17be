[package]
name = "gitscribe"
version = "0.1.0"
edition = "2021"
publish = false

[dependencies]
globset = "*"
ignore = "*"
notify = "*"
tokio = { version = "*", default-features = false, features = ["sync"] }

[dev-dependencies]
tempfile = "*"
