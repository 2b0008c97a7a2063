[package]
name = "codex-telegram-bridge"
version = "0.1.1"
edition = "2021"
publish = false

[dependencies]
dirs = "=7.0.0"
fs2 = "=0.4.3"
notify = "=8.2.1"
rusqlite = { version = "=0.41.1", features = ["bundled"] }
serde = { version = "=1.0.229", features = ["derive"] }
serde_json = "=1.0.154"
sha2 = "=0.10.9"
tungstenite = "=0.30.0"
ureq = { version = "=3.5.1", features = ["json"] }
url = "=2.5.8"
which = "=8.0.6"

[dev-dependencies]
clap = "4"
