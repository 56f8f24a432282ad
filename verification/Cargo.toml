[package]
name = "telepath"
version = "0.1.0"
edition = "2021"
publish = false

[dependencies]
ringbuf = "0.4"
serde = { version = "1", features = ["derive"] }
rmp-serde = "1"
thiserror = "1"
tokio = { version = "1", features = ["full"] }
cpal = "0.15"
