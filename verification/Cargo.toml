[package]
name = "doubao_voice_input"
version = "0.1.0"
edition = "2021"
publish = false

[dependencies]
md5 = "0.7"
uuid = { version = "1", features = ["v4"] }
rand = "0.8"
serde = { version = "1", features = ["derive"] }
serde_json = "1"
prost = "0.13.4"
bytes = "1"
tokio = { version = "1", features = ["full"] }
tokio-tungstenite = "0.25.0"
futures-util = "0.3"
reqwest = { version = "0.12", features = ["blocking", "json"] }
chrono = "0.4"
dirs = "5"
cpal = "0.15"
opus = "0.3.0"
symphonia = "0.5.4"
hound = "3"
hex = "0.4"
