[package]
name = "mcprouter"
version = "0.1.0"
edition = "2021"
publish = false

[dependencies]
serde = { version = "1", features = ["derive"] }
serde_json = "1"
sha2 = "0.10"
rand = "0.8"
uuid = { version = "1", features = ["v4", "v7"] }
chrono = "0.4"
dirs = "*"
thiserror = "*"
if-addrs = "*"
which = "*"
reqwest = { version = "0.12", default-features = false, features = ["blocking", "json", "rustls-tls"] }
