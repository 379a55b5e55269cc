[package]
name = "vollibrespot"
version = "0.2.0"
edition = "2021"
publish = false

[dependencies]
env_logger = "=0.7.1"
futures = "=0.3.34"
getopts = "=0.2.24"
hex = "=0.4.3"
librespot = { version = "=0.2.0", default-features = false }
log = "=0.4.34"
protobuf = "=2.14.0"
serde = { version = "=1.0.229", features = ["derive"] }
serde_derive = "=1.0.229"
serde_json = "=1.0.154"
sha-1 = "=0.9.8"
tokio = { version = "=1.54.1", features = ["rt", "signal", "sync", "time", "macros"] }
toml = "=0.5.11"
url = "=2.5.8"
