[package]
name = "epicbox"
version = "0.1.0"
edition = "2021"
publish = false

[dependencies]
rand = "0.9"
uuid = { version = "1", features = ["v4", "serde"] }
serde = { version = "1", features = ["derive"] }
serde_json = "1"
tungstenite = { version = "0.26", features = ["native-tls"] }
