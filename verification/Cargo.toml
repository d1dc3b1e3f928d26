[package]
name = "ssh_permissions"
version = "0.1.0"
edition = "2021"
publish = false

[dependencies]
dirs = "=7.0.0"
whoami = "=1.6.1"
log = "=0.4.34"
serde = { version = "=1.0.229", features = ["derive"] }
