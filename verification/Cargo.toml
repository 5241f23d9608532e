[package]
name = "photo_ingest"
version = "0.1.0"
edition = "2021"
publish = false

[dependencies]
image = { version = "0.24", default-features = false, features = ["png", "jpeg"] }
kamadak-exif = "0.5"
chrono = "0.4"
blob-uuid = "*"
