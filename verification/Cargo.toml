[package]
name = "beans_rs"
version = "1.0.0"
edition = "2021"
publish = false

[dependencies]
rand = "*"
chrono = "*"
sysinfo = "*"
serde = { version = "*", features = ["derive"] }
serde_json = "*"
reqwest = { version = "*", default-features = false, features = ["rustls-tls"] }
tokio = { version = "*", features = ["rt-multi-thread", "macros"] }
zstd = "*"
tar = "*"
