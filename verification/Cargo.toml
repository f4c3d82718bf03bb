[package]
name = "chatd"
version = "0.1.0"
edition = "2021"
publish = false

[dependencies]
bcrypt = "=0.19.3"
chrono = "=0.4.45"
serde = { version = "*", features = ["derive"] }
serde_json = "=1.0.151"
uuid = { version = "=1.27.0", features = ["v4"] }
tokio = { version = "=1.53.2", features = ["macros", "rt-multi-thread", "sync", "time", "fs", "io-util"] }
warp = { version = "=0.4.3", features = ["server", "websocket", "multipart"] }
futures-util = "=0.3.34"
