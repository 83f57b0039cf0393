[package]
name = "trustfall_git_adapter"
version = "0.1.0"
edition = "2021"
publish = false

[dependencies]
git2 = { version = "*", default-features = false }
trustfall = "*"
trustfall_core = "*"
trustfall_derive = "*"
anyhow = "*"
clap = { version = "*", features = ["derive"] }
comfy-table = "*"
serde_json = "*"
chrono = { version = "*", default-features = false, features = ["clock"] }

[dev-dependencies]
tempfile = "*"
