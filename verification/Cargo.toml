[package]
name = "rmq_monitor"
version = "0.1.0"
edition = "2021"
publish = false

[dependencies]
anyhow = "1"
async-std = { version = "1", features = ["unstable"] }
base64 = "0.21"
env_logger = "0.7"
futures = "0.3"
human-panic = "1"
log = "0.4"
serde = "1"
serde_derive = "1"
serde_json = "1"
smol_str = "0.2"
structopt = "0.3"
surf = "2"
toml = "0.5"
