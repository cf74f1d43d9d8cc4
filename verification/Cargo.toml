[package]
name = "spo2"
version = "0.1.0"
edition = "2021"
publish = false

[dependencies]
btleplug = "0.9"
futures = "0.3"
humantime = "2"
log = "0.4"
simplelog = "0.10"
structopt = "0.3"
thiserror = "1"
tokio = { version = "1", features = ["macros", "rt", "rt-multi-thread", "time"] }
