[package]
name = "music_link"
version = "0.1.0"
edition = "2021"
publish = false

[dependencies]
regex = "=1.13.1"
base64 = "=0.21.7"
url = "=2.5.8"
serde_json = "=1.0.154"
image = "=0.24.9"
serde = { version = "=1.0.229", features = ["derive"] }
reqwest = { version = "=0.11.27", default-features = false, features = ["json", "rustls-tls"] }
tokio = { version = "=1.54.1", features = ["full"] }
rspotify = { version = "=0.12.0", default-features = false, features = ["client-reqwest", "reqwest-rustls-tls"] }
log = "=0.4.34"
anyhow = "=1.0.104"
chrono = "0.4"
simplelog = "0.12"
winapi = { version = "0.3", features = ["shellapi", "winreg", "winuser", "winnt", "minwindef", "ntdef"] }
