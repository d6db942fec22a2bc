[package]
name = "bin_sniper"
version = "0.1.0"
edition = "2021"
publish = false

[dependencies]
base64 = "0.21"
quartz_nbt = "0.2"
reqwest = { version = "0.11", default-features = false, features = ["json", "rustls-tls"] }
serde_json = "1"
tokio = { version = "1", features = ["macros", "rt-multi-thread"] }
