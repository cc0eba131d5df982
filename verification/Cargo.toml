[package]
name = "ibm-appconfiguration-rust-sdk"
version = "0.1.0"
edition = "2021"
publish = false

[dependencies]
murmur3 = "0.5"
chrono = { version = "0.4", default-features = false, features = ["std", "clock"] }
rand = "0.9"
serde = { version = "1", features = ["derive"] }
serde_json = "1"
log = "0.4"
thiserror = "2"
url = "2"
tungstenite = "*"
reqwest = { version = "*", default-features = false, features = ["blocking", "json"] }
