[package]
name = "meshguard"
version = "0.1.0"
edition = "2021"
publish = false

[dependencies]
bytes = "1"
chrono = { version = "0.4", features = ["serde"] }
reqwest = { version = "0.12", default-features = false, features = ["json", "rustls-tls"] }
serde = { version = "1", features = ["derive"] }
serde_json = "1"
thiserror = "1"
