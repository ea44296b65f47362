[package]
name = "apm-lyrics-ndp"
version = "0.1.0"
edition = "2021"
publish = false

[dependencies]
extism-pdk = "*"
lofty = "*"
mp4ameta = "*"
serde = { version = "1", features = ["derive"] }
serde_json = "1"

[dev-dependencies]
regex = "1"
