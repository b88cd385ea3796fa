[package]
name = "lead_barry"
version = "0.1.0"
edition = "2021"
publish = false

[dependencies]
heapless = { version = "=0.8.0", features = ["serde"] }
crc = "=3.4.0"
postcard = { version = "=1.1.3", features = ["use-crc"] }
serde = { version = "=1.0.229", default-features = false, features = ["derive"] }
serde-json-core = "=0.6.0"
micromath = "=2.1.0"
nalgebra = { version = "=0.33.3", default-features = false, features = ["libm"] }
embedded-graphics = "=0.8.2"
embassy-time = "=0.4.0"
embassy-sync = "=0.6.2"
embassy-futures = "=0.1.2"
nanofish = "*"
