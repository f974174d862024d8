[package]
name = "oomhero"
version = "0.1.0"
edition = "2021"
publish = false

[dependencies]
fasteval = "=0.2.4"
moka = { version = "=0.12.16", features = ["sync"] }
duration-str = "=0.21.0"
nix = { version = "=0.30.1", features = ["signal", "fs"] }
clap = { version = "=4.6.7", features = ["derive"] }
log = "=0.4.35"
env_logger = "=0.11.11"
signal-hook = "=0.3.18"
tokio = { version = "=1.54.1", features = ["rt-multi-thread", "macros"] }
serde = { version = "=1.0.229", features = ["derive"] }
serde_yaml = "=0.9.34"
ureq = { version = "=3.5.1", default-features = false, features = ["json"] }
metrics = "=0.24.6"
metrics-exporter-prometheus = { version = "=0.18.3", default-features = false, features = ["http-listener"] }
metrics-util = { version = "=0.20.4", default-features = false }
