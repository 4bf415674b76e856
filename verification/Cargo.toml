[package]
name = "doggy_daycare"
version = "0.1.0"
edition = "2021"
publish = false

[dependencies]
chrono = { version = "=0.4.45", features = ["serde"] }
directories = "=6.0.0"
once_cell = "=1.21.4"
serde = { version = "=1.0.229", features = ["derive"] }
serde_json = "=1.0.154"
tauri = { version = "2", default-features = false }
tempfile = "=3.27.0"
urlencoding = "=2.1.3"
uuid = { version = "=1.29.0", features = ["v4"] }
