[package]
name = "mqttlog"
version = "0.1.0"
edition = "2021"
publish = false

[dependencies]
crossbeam-channel = "=0.5.17"
log = { version = "=0.4.34", features = ["std"] }
rumqtt = "=0.31.0"
