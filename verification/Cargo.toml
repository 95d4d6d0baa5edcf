[package]
name = "udp_traffic_generator"
version = "0.1.0"
edition = "2021"
publish = false

[dependencies]
byte-unit = "4"
fastrand = "*"
log = "*"
tokio = { version = "1", features = ["full"] }
kanal = "*"
openssl = "*"
tokio-dtls-stream-sink = "*"
clap = "4"
simple_logger = "*"
mimalloc = "*"
coarsetime = "*"
