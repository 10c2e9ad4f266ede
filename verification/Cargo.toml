[package]
name = "loupedeck"
version = "0.1.0"
edition = "2021"
publish = false

[dependencies]
raqote = { version = "=0.8.5", default-features = false, features = ["text"] }
tokio = { version = "=1.54.1", features = ["rt", "rt-multi-thread", "sync", "time", "macros"] }
tokio-serial = "=5.5.0"
libloading = "=0.9.0"
serde = { version = "=1.0.229", features = ["derive"] }
serde_with = "=3.24.0"
serde_json = "=1.0.154"
platform-dirs = "=0.3.0"
futures = "=0.3.34"
font-kit = "=0.14.3"
pathfinder_geometry = "=0.5.1"
time = { version = "=0.3.55", features = ["macros", "formatting"] }
