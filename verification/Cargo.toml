[package]
name = "doorsys"
version = "0.1.0"
edition = "2021"
publish = false

[dependencies]
anyhow = "=1.0.104"
bincode = "=2.0.1"
log = "=0.4.34"
rand = "=0.8.8"
rumqttc = { version = "=0.25.1", default-features = false }
