[package]
name = "dns_check"
version = "0.1.0"
edition = "2021"
publish = false

[dependencies]
chrono = "0.4"
hickory-resolver = "0.24"
serde = { version = "1", features = ["derive"] }
tracing = "0.1"
ureq = { version = "2", default-features = false, features = ["json"] }
