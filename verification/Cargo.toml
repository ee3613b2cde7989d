[package]
name = "telegram_cli"
version = "0.1.0"
edition = "2021"
publish = false

[dependencies]
aes-gcm = "=0.10.3"
sha2 = "=0.10.9"
base64 = "=0.22.1"
serde_json = "=1.0.154"
chrono = "=0.4.45"
serde = { version = "=1.0.229", features = ["derive"] }
serde_yaml = "=0.9.34"
clap = { version = "=4.6.7", features = ["derive"] }
tokio = { version = "=1.54.1", features = ["full"] }
humantime = "=2.4.0"
rusqlite = { version = "=0.41.1", features = ["bundled"] }
directories = "=6.0.0"
grammers-client = "=0.11.0"
grammers-tl-types = "=0.11.0"
grammers-session = { version = "=0.11.0", features = ["serde"] }
qrcode = "=0.14.1"
rustyline = "=19.0.0"
async-trait = "=0.1.92"
thiserror = "=2.0.21"
miette = "=7.6.0"
rand = "=0.8.8"
