[package]
name = "clip_translator"
version = "0.1.0"
edition = "2021"
publish = false

[dependencies]
anyhow = "=1.0.104"
arboard = { version = "=3.7.0", default-features = false }
clap = { version = "=4.6.7", features = ["derive"] }
global-hotkey = "=0.9.0"
image = { version = "=0.25.10", default-features = false, features = ["png"] }
notify-rust = "=4.19.0"
rig-core = "=0.34.0"
tokio = { version = "=1.54.1", features = ["rt", "time", "macros"] }
tracing = "=0.1.44"
tracing-subscriber = { version = "=0.3.23", features = ["env-filter"] }
