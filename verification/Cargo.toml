[package]
name = "bedrock_client"
version = "0.1.0"
edition = "2021"
publish = false

[dependencies]
uuid = "=1.29.0"
sha2 = "=0.10.9"
hex = "=0.4.3"
serde = { version = "=1.0.229", features = ["derive"] }
reqwest = { version = "=0.12.28", default-features = false, features = ["rustls-tls"] }
