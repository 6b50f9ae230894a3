[package]
name = "seaplane"
version = "0.1.0"
edition = "2021"
publish = false

[dependencies]
base64 = "0.21"
names = "0.14"
clap = "3.2"
clap_complete = "3.2"
reqwest = { version = "0.11", default-features = false, features = ["blocking", "json", "rustls-tls"] }
serde = { version = "1", features = ["derive"] }
serde_json = "1"
toml = "0.5"
