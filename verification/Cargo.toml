[package]
name = "thunderbird_api"
version = "0.4.0"
edition = "2021"
publish = false

[dependencies]
anyhow = "1"
serde_json = "1"
ureq = { version = "3", default-features = false }
