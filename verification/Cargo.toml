[package]
name = "qmp"
version = "0.1.0"
edition = "2021"
publish = false

[dependencies]
fastrand = "2"
futures-core = "0.3"
serde = { version = "1", features = ["derive"] }
serde_json = "1"
serde_path_to_error = "0.1"
thiserror = "2"
tokio = { version = "1", features = ["rt", "rt-multi-thread", "net", "io-util", "sync", "time", "macros"] }
tokio-stream = { version = "0.1", features = ["sync"] }
