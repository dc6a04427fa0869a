[package]
name = "vscode_profile_importer"
version = "0.1.0"
edition = "2021"
publish = false

[dependencies]
serde_json = "1"
regex = "1"
clap = { version = "4", features = ["derive"] }
which = "*"
wait-timeout = "0.2"

[dev-dependencies]
tempfile = "3"
