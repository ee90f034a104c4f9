[package]
name = "edge_translate"
version = "0.1.0"
edition = "2021"
publish = false

[dependencies]
base64 = "0.22"
serde = "1"
serde_json = "1"
ureq = { version = "3", default-features = false }
