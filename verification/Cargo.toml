[package]
name = "simple_c2pa"
version = "0.1.0"
edition = "2021"
publish = false

[dependencies]
c2pa = { version = "=0.90.22", default-features = false, features = ["openssl"] }
openssl = "=0.10.81"
ring = "=0.17.14"
tempfile = "=3.27.0"
serde_json = "=1.0.151"
fs-err = "=3.3.2"
