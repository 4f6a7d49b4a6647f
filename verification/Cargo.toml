[package]
name = "hostwatch"
version = "0.1.0"
edition = "2021"
publish = false

[dependencies]
sysinfo = { version = "0.30", default-features = false }
serde = { version = "1", features = ["derive"] }
serde_json = "1"
dirs = "5"
