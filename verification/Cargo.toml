[package]
name = "language_detector"
version = "0.1.0"
edition = "2021"
publish = false

[dependencies]
anyhow = "=1.0.104"
futures = "=0.3.34"
streaming-iterator = "=0.1.9"
magika = "=1.1.0"
ort = { version = "=2.0.0-rc.12", default-features = false, features = ["load-dynamic", "api-24"] }
