[package]
name = "moooodotfarm"
version = "0.1.0"
edition = "2021"
publish = false

[dependencies]
anyhow = "1"
axum = "*"
chrono = "0.4"
clap = "4"
edit-distance = "2"
env_logger = "*"
log = "0.4"
prometheus = "*"
rand = "0.8"
redb = "*"
reqwest = { version = "*", default-features = false, features = ["rustls-tls"] }
serde = { version = "1", features = ["derive"] }
serde_json = "1"
thiserror = "1"
tokio = { version = "1", features = ["macros", "net", "rt-multi-thread", "time"] }
toml = "*"
tower-http = { version = "*", features = ["cors", "trace"] }
url = "2"
