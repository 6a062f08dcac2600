[package]
name = "tls_creds"
version = "0.1.0"
edition = "2021"
publish = false

[dependencies]
native-tls = "*"
reqwest = { version = "*", default-features = false, features = ["native-tls", "rustls-tls"] }
serde = { version = "*", features = ["derive"] }

[dev-dependencies]
openssl = "*"
