[package]
name = "dream_spinner"
version = "0.1.0"
edition = "2021"
publish = false

[dependencies]
anyhow = "=1.0.104"
chrono = { version = "=0.4.45", default-features = false, features = ["clock"] }
directories = "=5.0.1"
display-info = "0.5"
egui = { version = "=0.29.1", features = ["serde"] }
egui_extras = { version = "=0.29.1", default-features = false }
emath = "=0.29.1"
env_logger = { version = "=0.11.11", default-features = false }
log = "=0.4.34"
rand = "=0.8.8"
serde = { version = "=1.0.229", features = ["derive"] }
serde_json = "=1.0.154"
toml = "=0.8.23"
