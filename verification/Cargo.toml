[package]
name = "voice_input"
version = "0.1.0"
edition = "2021"
publish = false

[dependencies]
anyhow = "1"
arboard = "*"
clap = { version = "4", features = ["derive"] }
enigo = "*"
tch = "*"
tracing = "0.1"
tracing-subscriber = { version = "0.3", features = ["env-filter"] }
