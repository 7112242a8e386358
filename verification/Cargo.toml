[package]
name = "gh_stars"
version = "0.1.0"
edition = "2021"
publish = false

[dependencies]
octocrab = "0.29"
serde_json = "1"
ratatui = "0.22"
crossterm = "0.26"
reqwest = { version = "0.11", default-features = false, features = ["json", "rustls-tls"] }
tokio = { version = "1", features = ["full"] }
confy = "0.5"
clap = { version = "4", features = ["derive"] }
serde = { version = "1", features = ["derive"] }
anyhow = "1"
env_logger = "0.10"
log = "0.4"
