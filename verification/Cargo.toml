[package]
name = "livesplit-one"
version = "0.1.0"
edition = "2021"
publish = false

[dependencies]
anyhow = "=1.0.104"
chrono = "=0.4.45"
directories = "=6.0.0"
fern = "=0.7.1"
livesplit-auto-splitting = "=0.1.0"
livesplit-core = "=0.13.0"
log = { version = "=0.4.35", features = ["serde"] }
once_cell = "=1.21.4"
serde = { version = "=1.0.229", features = ["derive"] }
serde_json = "=1.0.154"
serde_yaml = "=0.9.34"
time = "=0.3.55"
tokio = { version = "=1.54.1", features = ["sync"] }
