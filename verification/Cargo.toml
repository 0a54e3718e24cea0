[package]
name = "uma"
version = "0.1.0"
edition = "2021"
publish = false

[dependencies]
bitcoin = "=0.31.3"
chrono = "=0.4.45"
ecies = { version = "=0.2.6", default-features = false, features = ["pure", "std"] }
hex = "=0.4.3"
rand_core = { version = "=0.6.4", features = ["getrandom"] }
reqwest = { version = "=0.11.27", default-features = false, features = ["blocking", "rustls-tls"] }
serde = { version = "=1.0.229", features = ["derive"] }
serde_json = "=1.0.154"
url = "=2.5.8"
