[package]
name = "dsbox"
version = "0.1.0"
edition = "2021"
publish = false

[dependencies]
shlex = "1"
rand = "0.9"
chrono = "0.4"
enumflags2 = "0.7"
serde = { version = "1", features = ["derive"] }
serde_json = "1"
tokio = { version = "1", features = ["rt", "rt-multi-thread", "sync", "process", "time", "macros", "io-util"] }
log = "0.4"
env_logger = "0.11"
clap = { version = "4", features = ["derive"] }
which = "7"
