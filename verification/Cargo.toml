[package]
name = "firewall_probe"
version = "0.1.0"
edition = "2021"
publish = false

[dependencies]
async-trait = "0.1"
crossbeam-utils = "0.8"
env_logger = "0.11"
futures = "0.3"
ipnet = "2"
lazy_static = "1"
libc = "0.2"
log = "0.4"
rand = "0.8"
tokio = { version = "1", features = ["io-util", "macros", "net", "rt", "time"] }
