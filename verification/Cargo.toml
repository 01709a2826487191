[package]
name = "mpv_bridge"
version = "0.1.0"
edition = "2021"
publish = false

[dependencies]
uuid = { version = "=1.27.0", features = ["v4"] }
urlencoding = "=2.1.3"
reqwest = { version = "=0.13.5", default-features = false, features = ["json"] }
tokio = { version = "=1.53.2", features = ["macros", "rt-multi-thread", "sync", "time", "process", "net", "io-util"] }
serde = { version = "=1.0.229", features = ["derive"] }
serde_json = "=1.0.151"
