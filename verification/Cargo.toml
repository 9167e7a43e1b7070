[package]
name = "ruuvi_gateway"
version = "0.1.0"
edition = "2021"
publish = false

[dependencies]
base64 = "0.13"
btleplug = "0.4"
chrono = "0.4"
crossbeam = "0.8"
frank_jwt = "3.1"
paho-mqtt = "0.9"
serde = { version = "1", features = ["derive"] }
serde_json = "1"
serde_yaml = "0.9"
