[package]
name = "bg_core"
version = "0.1.0"
edition = "2021"
publish = false

[dependencies]
infer = "*"
rand = "*"
which = "*"
tokio = { version = "*", features = ["process", "rt", "signal", "macros"] }
wayland-client = "*"
clap = { version = "*", features = ["derive"] }
log = "*"
env_logger = "*"
walkdir = "*"
