[package]
name = "sensor-lib"
version = "0.1.0"
edition = "2021"
publish = false

[dependencies]
rand = "0.7"
hyper = { version = "0.14", features = ["client", "server", "http1", "tcp", "runtime"] }
tokio = { version = "1", features = ["rt", "rt-multi-thread", "macros", "net", "io-util", "time", "sync"] }
clap = "3.2"
anyhow = "1"
log = "0.4"
env_logger = "0.9"
hex = "0.4"
cty = "0.2"
libc = "0.2"
futures-lite = "1"
smol = "1"
async-trait = "0.1"
