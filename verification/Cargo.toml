[package]
name = "spyrun"
version = "0.1.0"
edition = "2021"
publish = false

[dependencies]
aead = "0.5"
aes-gcm-siv = "0.11"
anyhow = "1"
base64 = "0.22"
chrono = "0.4"
clap = { version = "4", features = ["derive"] }
crypto-hash = "0.3"
notify = "8"
rand = "0.8"
rayon = "1"
regex = "1"
serde = { version = "1", features = ["derive"] }
single-instance = "0.3"
tera = "1"
toml = "0.8"
tracing = "0.1"
tracing-appender = "0.2"
tracing-log = "0.2"
tracing-subscriber = { version = "0.3", features = ["env-filter"] }
walkdir = "2"
