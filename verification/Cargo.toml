[package]
name = "embassy-net"
version = "0.1.0"
edition = "2021"
publish = false

[dependencies]
embassy-sync = "=0.8.0"
embassy-time = "=0.5.1"
heapless = "=0.8.0"
xarxa = "=0.0.0"
xarxa-driver = { version = "=0.1.0", features = ["async", "packetmeta-timestamp"] }
