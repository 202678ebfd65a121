[package]
name = "bgp_sessions"
version = "0.1.0"
edition = "2021"
publish = false

[dependencies]
bgpkit-parser = "=0.11.1"
chrono = "=0.4.45"
clap = { version = "=4.6.7", features = ["derive"] }
env_logger = "=0.11.11"
log = "=0.4.34"
serde = { version = "=1.0.229", features = ["derive"] }
serde_yaml = "=0.9.34"
