[package]
name = "aware_agent"
version = "0.1.0"
edition = "2021"
publish = false

[dependencies]
anyhow = "1"
bincode = "1"
iceoryx2 = "*"
netstat2 = "*"
serde = { version = "1", features = ["derive"] }
sysinfo = "*"
tokio = { version = "1", features = ["rt-multi-thread", "macros", "sync", "time"] }
