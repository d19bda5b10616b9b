[package]
name = "voxkey"
version = "0.1.0"
edition = "2021"
publish = false

[dependencies]
ashpd = { version = "=0.13.13", features = ["global_shortcuts", "remote_desktop", "screencast"] }
base64 = "=0.23.1"
futures-util = "=0.3.34"
hound = "=3.5.1"
http = "=1.5.0"
reqwest = { version = "=0.13.5", features = ["multipart", "stream", "json"] }
serde = { version = "=1.0.229", features = ["derive"] }
serde_json = "=1.0.151"
tempfile = "=3.27.0"
tokio = { version = "=1.53.2", features = ["rt-multi-thread", "macros", "sync", "time", "process", "signal", "fs", "io-util"] }
tokio-tungstenite = "=0.30.0"
toml = "=1.1.6"
tracing = "=0.1.44"
zbus = "=5.19.0"
