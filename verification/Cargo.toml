[package]
name = "dualsense"
version = "0.1.0"
edition = "2021"
publish = false

[dependencies]
anyhow = "1"
base64 = "0.22"
clap = { version = "4", features = ["derive"] }
cpal = "0.16"
crossterm = "*"
dotenvy = "0.15"
evdev = "0.13"
futures-util = "0.3"
libc = "0.2"
ratatui = "*"
rustls = { version = "0.23", default-features = false, features = ["ring", "std", "tls12", "logging"] }
serde = { version = "1", features = ["derive"] }
serde_json = "1"
tokio = { version = "1", features = ["rt", "net", "time", "sync", "macros"] }
tokio-tungstenite = { version = "*", features = ["rustls-tls-webpki-roots"] }
wl-clipboard-rs = "0.9"
wrtype = "*"
