[package]
name = "riff"
version = "0.1.0"
edition = "2021"
publish = false

[dependencies]
percent-encoding = "=2.3.2"
rand = "=0.8.8"
serde = { version = "=1.0.229", features = ["derive"] }
serde_json = "=1.0.154"
anyhow = "=1.0.104"
log = "=0.4.35"
tokio = { version = "=1.54.1", features = ["time", "rt", "macros"] }
open = "=5.4.5"
gettext-rs = "=0.8.0"
oo7 = "=0.6.0"
