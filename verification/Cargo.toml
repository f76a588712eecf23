[package]
name = "rivctrl"
version = "0.1.0"
edition = "2021"
publish = false

[dependencies]
serde = { version = "1", features = ["derive"] }
serde_derive = "1"
toml = "0.5"
serialport = { version = "3", default-features = false }
sysinfo = "0.26"
cpu-monitor = "0.1"
