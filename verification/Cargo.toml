[package]
name = "c2pa_reader"
version = "0.1.0"
edition = "2021"
publish = false

[dependencies]
c2pa = { version = "=0.32.7", features = ["unstable_api"] }
kamadak-exif = "=0.5.5"
serde = { version = "=1.0.229", features = ["derive"] }
serde_json = "=1.0.151"
