[package]
name = "disk_watchdog"
version = "0.1.0"
edition = "2021"
publish = false

[dependencies]
dotenv = "0.15"
sysinfo = { version = "0.29", default-features = false }
