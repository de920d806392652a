[package]
name = "hydrabadger"
version = "0.1.0"
edition = "2021"
publish = false

[dependencies]
bincode = "=1.3.3"
bytes = "=0.4.12"
futures = "=0.1.31"
hbbft = "=0.1.1"
rand = "=0.6.5"
serde = { version = "=1.0.229", features = ["derive"] }
serde_bytes = "0.10"
tokio = { version = "=0.1.22", default-features = false, features = ["codec", "io", "tcp"] }
uuid = { version = "=0.7.4", features = ["v4", "serde"] }
