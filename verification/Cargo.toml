[package]
name = "consul"
version = "0.1.0"
edition = "2021"
publish = false

[dependencies]
reqwest = { version = "0.11", default-features = false, features = ["blocking", "json"] }
serde = "1"
serde_json = "1"
url = "2"

[dev-dependencies]
rand = "0.8"
