[package]
name = "kether"
version = "0.1.0"
edition = "2021"
publish = false

[dependencies]
futures-util = "=0.3.34"
serde = { version = "=1.0.229", features = ["derive"] }
steam-vent = "=0.5.0"
steam-vent-proto-steam = "=0.5.2"
steamid-ng = "=3.0.0"
thiserror = "=1.0.69"
tokio = { version = "=1.53.2", features = ["time", "rt"] }
tokio-stream = { version = "=0.1.19", features = ["time"] }
tracing = "=0.1.44"

[dev-dependencies]
serde_json = "=1.0.151"
