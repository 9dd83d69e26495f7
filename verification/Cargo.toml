[package]
name = "tango_netplay"
version = "0.1.0"
edition = "2021"
publish = false

[dependencies]
anyhow = "1"
byteorder = "1"
bytes = "1"
clap = { version = "3", features = ["derive"] }
env_logger = "0.9"
futures-util = { version = "0.3", features = ["sink"] }
hex = "=0.4.3"
hyper = "0.14"
hyper-tungstenite = "0.8"
log = "0.4"
parking_lot = "0.12"
prost = "0.10"
rand = "=0.8.8"
rand_pcg = "=0.3.1"
serde = { version = "1", features = ["derive"] }
serde_json = "1"
sha3 = "=0.10.9"
shell-words = "1"
tempfile = "3"
tokio = { version = "1", features = ["rt", "sync"] }
tungstenite = "0.17"
