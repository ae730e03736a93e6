[package]
name = "edl_gen"
version = "0.1.0"
edition = "2021"
publish = false

[dependencies]
vtc = "=0.1.14"
semver = "=1.0.28"
httparse = "=1.10.1"
serde = { version = "=1.0.229", features = ["derive"] }
serde_json = "=1.0.154"
anyhow = "=1.0.104"
log = "=0.4.35"
parking_lot = "=0.13.0"
itoa = "=1.0.18"
num-traits = "=0.2.19"
cpal = "=0.18.2"
sled = "=0.34.7"
minreq = { version = "=2.14.1", features = ["json-using-serde"] }
dirs = "=7.0.0"
ltc = "*"
