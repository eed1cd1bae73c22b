[package]
name = "engine"
version = "0.1.0"
edition = "2021"
publish = false

[dependencies]
sha2 = "0.10"
serde = { version = "1", features = ["derive"] }
serde_json = "1"
serde_json_canonicalizer = "*"
getrandom = "0.3"
rustix = { version = "*", features = ["fs"] }
base64 = "0.22"

[dev-dependencies]
tempfile = "3"
