[package]
name = "emu"
version = "0.1.0"
edition = "2021"
publish = false

[dependencies]
byteorder = "1"
rand = "0.9"
log = "0.4"
env_logger = "0.11"
clap = { version = "4", features = ["derive"] }
tokio = { version = "1", features = ["rt", "rt-multi-thread", "time", "macros", "sync", "io-util", "net"] }
