[package]
name = "netns_manager"
version = "0.1.0"
edition = "2021"
publish = false

[dependencies]
nix = "0.23"
rtnetlink = "0.9"
tokio = { version = "1", features = ["rt-multi-thread"] }
futures = "0.3"
log = "0.4"
env_logger = "0.9"
signal-hook = "0.3"
uuid = "0.8"
structopt = "0.3"
ipnetwork = "0.18"
