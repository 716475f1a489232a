[package]
name = "ebts"
version = "0.1.0"
edition = "2021"
publish = false

[dependencies]
form_urlencoded = "1"
hyper = { version = "1", features = ["http1", "server"] }
hyper-util = { version = "0.1", features = ["tokio"] }
tokio = { version = "1", features = ["net", "rt", "signal", "macros"] }
clap = { version = "4", features = ["derive"] }
env_logger = "0.11"
log = "0.4"
