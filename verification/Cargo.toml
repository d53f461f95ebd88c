[package]
name = "spdf_core"
version = "0.1.0"
edition = "2021"
publish = false

[dependencies]
aes-gcm = "=0.10.3"
base64 = "=0.22.1"
ed25519-dalek = "=2.2.0"
sha2 = "=0.10.9"
hex = "=0.4.3"
serde_json = "=1.0.154"
serde = { version = "=1.0.229", features = ["derive"] }
sysinfo = "=0.30.13"
hostname = "=0.4.2"
uuid = { version = "=1.29.0", features = ["v4"] }
dirs = "=5.0.1"
reqwest = { version = "0.12", default-features = false, features = ["blocking", "json", "rustls-tls"] }
winreg = "*"
