[package]
name = "radio"
version = "0.1.0"
edition = "2021"
publish = false

[dependencies]
base64 = "0.22"
rand = "0.9"
uuid = { version = "1", features = ["v4", "serde"] }
serde = { version = "1", features = ["derive"] }
serde_json = "1"
chrono = { version = "0.4", features = ["serde"] }
tokio = { version = "1", features = ["full"] }
tokio-tungstenite = "*"
futures-util = { version = "0.3", features = ["sink"] }
symphonia = "0.5"
walkdir = "2"
rayon = "1"
argh = "*"
ctrlc = "3"
cpal = "*"
