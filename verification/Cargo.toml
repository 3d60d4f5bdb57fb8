[package]
name = "indextts_launcher"
version = "0.1.0"
edition = "2021"
publish = false

[dependencies]
serde = { version = "1", features = ["derive"] }
sysinfo = { version = "0.30", default-features = false }
tokio = { version = "1", default-features = false, features = ["process", "io-util", "time", "rt", "macros", "sync"] }
