[package]
name = "evmobserver"
version = "0.1.0"
edition = "2021"
publish = false

[dependencies]
bytesize = "*"
chrono = "0.4"
csv = "1"
json = "0.12"
log = "0.4"
reqwest = { version = "*", default-features = false, features = ["blocking", "rustls-tls"] }
separator = "*"
serde = { version = "1", features = ["derive"] }
serde_json = "1"
simple_logger = "*"
stopwatch = "*"
