[package]
name = "v_voice"
version = "0.1.0"
edition = "2021"
publish = false

[dependencies]
dirs = "6"
futures-util = { version = "0.3", default-features = false, features = ["std"] }
hound = "3.5"
reqwest = { version = "0.12", default-features = false, features = ["json", "multipart", "rustls-tls", "stream"] }
serde = { version = "1", features = ["derive"] }
serde_json = "1"
tokio = { version = "1", features = ["fs", "io-util", "macros", "process", "rt-multi-thread", "sync", "time"] }
zip = { version = "2", default-features = false, features = ["deflate"] }
