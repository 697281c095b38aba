[package]
name = "netns_setup"
version = "0.1.0"
edition = "2021"
publish = false

[dependencies]
env_logger = "*"
futures = "*"
log = "*"
nix = { version = "*", features = ["sched", "mount", "process", "signal", "fs", "user"] }
rtnetlink = "*"
tokio = { version = "1", features = ["rt", "rt-multi-thread"] }
