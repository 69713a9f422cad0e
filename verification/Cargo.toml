[package]
name = "openauth-plugins"
version = "0.1.0"
edition = "2021"
publish = false

[dependencies]
base64 = "0.22"
sha2 = "0.10"
rand = "0.8"
url = "2"
time = "0.3"
serde = { version = "1", features = ["derive"] }
serde_json = "1"
thiserror = "2"
indexmap = "2"
http = "1"
