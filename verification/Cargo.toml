[package]
name = "deskwatch"
version = "0.1.0"
edition = "2021"
publish = false

[dependencies]
autopilot = "0.4"
base64 = "0.21"
chrono = { version = "0.4", default-features = false, features = ["clock"] }
cpal = "0.15"
dotenv = "0.15"
hound = "3"
reqwest = { version = "0.11", default-features = false, features = ["json", "rustls-tls"] }
serde = { version = "1", features = ["derive"] }
serde_json = "1"
tokio = { version = "1", features = ["rt-multi-thread", "time", "sync"] }
