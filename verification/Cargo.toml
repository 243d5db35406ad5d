[package]
name = "hulk_core"
version = "0.1.0"
edition = "2021"
publish = false

[dependencies]
chrono = "*"
clap = { version = "*", features = ["derive"] }
color-eyre = "*"
ctrlc = "*"
fern = "*"
log = "*"
serde = { version = "*", features = ["derive"] }
serde_json = "*"
tokio-util = "*"
