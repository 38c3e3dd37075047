[package]
name = "roblox_booster"
version = "2.0.0"
edition = "2021"
publish = false

[dependencies]
anyhow = "1"
serde = { version = "1", features = ["derive"] }
serde_json = "1"
sysinfo = "0.32"
thiserror = "1"
windows = { version = "0.57", features = ["Win32_Foundation", "Win32_System_Threading"] }
