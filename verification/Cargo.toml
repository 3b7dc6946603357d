[package]
name = "bitcoind_manager"
version = "0.1.0"
edition = "2021"
publish = false

[dependencies]
chrono = "=0.4.45"
ctrlc = "=3.5.2"
env_logger = "=0.11.11"
heck = "=0.3.3"
linear-map = { version = "=1.2.0", features = ["serde_impl"] }
nix = { version = "=0.31.3", features = ["signal", "process"] }
serde = { version = "=1.0.229", features = ["derive"] }
serde_json = "=1.0.154"
serde_yaml = "=0.8.26"
tokio = { version = "=1.54.1", features = ["rt-multi-thread", "sync"] }
