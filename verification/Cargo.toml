[package]
name = "ichat"
version = "0.1.1"
edition = "2021"
publish = false

[dependencies]
serde_json = "1"
serde = { version = "1", features = ["derive"] }
base64 = "0.22"
http = "1"
pasetors = "0.7"
toml = "0.8"
reqwest = { version = "0.12", default-features = false, features = ["json", "cookies", "rustls-tls"] }
tokio = { version = "1", features = ["macros", "rt-multi-thread", "signal"] }
dotenv = "0.15"
anyhow = "1"
