[package]
name = "directopt"
version = "0.1.0"
edition = "2021"
publish = false

[dependencies]
base64 = "=0.22.1"
rand = "=0.8.5"
rayon = "=1.12.0"
serde = { version = "=1.0.229", features = ["derive"] }
calamine = "=0.30.1"
log = "=0.4.35"
