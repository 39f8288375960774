[package]
name = "flux_client"
version = "0.1.0"
edition = "2021"
publish = false

[dependencies]
anyhow = "1"
serde = { version = "1", features = ["derive"] }
surf = { version = "2.3", default-features = false, features = ["h1-client-no-tls"] }
