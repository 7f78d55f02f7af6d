[package]
name = "video_utils"
version = "0.1.0"
edition = "2021"
publish = false

[dependencies]
anyhow = "=1.0.104"
base64 = "=0.22.1"
chrono = { version = "=0.4.45", features = ["serde"] }
image = { version = "=0.25.10", default-features = false, features = ["jpeg", "png"] }
oasgen = "=0.25.0"
serde = { version = "=1.0.229", features = ["derive"] }
serde_json = "=1.0.154"
tempfile = "=3.27.0"
tokio = { version = "=1.54.1", features = ["fs", "io-util", "process", "rt"] }
tracing = "=0.1.44"
uuid = { version = "=1.29.0", features = ["v4"] }
