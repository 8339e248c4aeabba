[package]
name = "enarx"
version = "0.1.0"
edition = "2021"
publish = false

[dependencies]
x509-cert = "=0.3.0"
getrandom = "=0.4.3"
url = "=2.5.8"
ureq = { version = "=3.4.2", default-features = false }
toml = "=1.1.7"
serde = { version = "=1.0.229", features = ["derive"] }
serde_json = "=1.0.151"
sha2 = "=0.11.0"

[dev-dependencies]
