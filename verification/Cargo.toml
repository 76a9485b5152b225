[package]
name = "chronolog"
version = "0.1.0"
edition = "2021"
publish = false

[dependencies]
image = "=0.24.9"
base64 = "=0.22.1"
uuid = { version = "=1.27.0", features = ["v4"] }
chrono = "=0.4.45"
ort = { version = "=2.0.0-rc.13", default-features = false, features = ["directml"] }
tokio = { version = "=1.53.2", features = ["rt-multi-thread", "time", "macros"] }
screenshots = "=0.8.10"
