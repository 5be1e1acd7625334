[package]
name = "cubeos_service"
version = "0.1.0"
edition = "2021"
publish = false

[dependencies]
bincode = "1.3"
serde = { version = "1", features = ["derive"] }
serde_json = "1"
failure = "0.1"
nix = "0.26"
syslog = "5.0"
serial = "0.4"
dialoguer = "0.10"
gpio = "0.4"
