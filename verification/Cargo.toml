[package]
name = "rocker"
version = "0.1.0"
edition = "2021"
publish = false

[dependencies]
anyhow = "=1.0.104"
app = "=0.5.6"
chrono = "=0.4.45"
log = "=0.4.34"
nix = { version = "=0.31.3", features = ["fs", "mount", "process", "sched", "signal"] }
pretty_env_logger = "=0.5.0"
serde_json = { version = "=1.0.154", features = ["preserve_order"] }
unshare = "=0.7.0"
