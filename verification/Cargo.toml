[package]
name = "antigravity_agent"
version = "0.1.0"
edition = "2021"
publish = false

[dependencies]
dirs = "5"
serde_json = "1"
sysinfo = "0.30"
