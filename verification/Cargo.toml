[package]
name = "rvrrpd"
version = "0.1.0"
edition = "2021"
publish = false

[dependencies]
hmac = "=0.12.1"
sha2 = "=0.10.9"
sha3 = "=0.10.9"
libc = "=0.2.190"
ctrlc = "=3.5.2"
daemonize = "=0.5.0"
toml = "=1.1.7"
serde = { version = "=1.0.229", features = ["derive"] }
serde_json = "=1.0.151"
