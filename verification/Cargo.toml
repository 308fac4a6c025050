[package]
name = "leafshell"
version = "0.1.0"
edition = "2021"
publish = false

[dependencies]
image = { version = "*", default-features = false, features = ["png"] }
anyhow = "*"
log = "*"
once_cell = "*"
parking_lot = "*"
scopeguard = "*"
serde = { version = "*", features = ["derive"] }
serde_json = "*"
sysinfo = "*"
