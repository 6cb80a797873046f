[package]
name = "open_gopro"
version = "0.1.0"
edition = "2021"
publish = false

[dependencies]
url = "2"
uuid = "1"
thiserror = "1"
async-trait = "0.1"
lazy_static = "1"
futures-util = "0.3"
tokio = { version = "1", features = ["sync", "time", "rt"] }
tokio-stream = "0.1"
btleplug = "*"
mdns-sd = "*"
reqwest = { version = "*", default-features = false }
