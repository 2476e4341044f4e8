[package]
name = "mamba_bootstrap"
version = "0.1.0"
edition = "2021"
publish = false

[dependencies]
bzip2 = "*"
color-eyre = "*"
reqwest = "*"
serde = { version = "1", features = ["derive"] }
serde_json = "1"
shellexpand = "*"
tar = "*"
tempdir = "*"
tokio = { version = "1", features = ["rt-multi-thread", "macros"] }
trauma = "*"
