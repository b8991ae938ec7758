[package]
name = "stein_ipc"
version = "0.1.0"
edition = "2021"
publish = false

[dependencies]
time = "0.3"
uuid = { version = "1", features = ["v5", "v7"] }
serde = { version = "1", features = ["derive"] }
serde_json = "1"
tokio = { version = "1", features = ["io-util", "rt", "macros", "sync", "time", "net"] }
tokio-util = "0.7"
tracing = "0.1"
thiserror = "2"
windows-sys = { version = "0.59", features = ["Win32_Foundation", "Win32_Security", "Win32_Security_Authorization", "Win32_System_Pipes", "Win32_System_Threading"] }
